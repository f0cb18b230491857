//! The script that asks a window to draw its visible content onto a canvas.

use crate::text::{append_decimal, decimal_text, digit_char, push_char};
use vstd::prelude::*;

verus! {

/// The script up to the largest width of the canvas.
pub const SCRIPT_HEAD: &'static str = r#"
        window.__tauriScreenshotData = null;
        (async function() {
            try {
                const canvas = document.createElement('canvas');
                const ctx = canvas.getContext('2d');
                
                // Get viewport dimensions
                const viewportWidth = Math.min(window.innerWidth, "#;

/// The script between the largest width and the first mention of the quality.
pub const SCRIPT_AFTER_WIDTH: &'static str = r#");
                const viewportHeight = window.innerHeight;
                
                canvas.width = viewportWidth;
                canvas.height = viewportHeight;
                
                // Set white background
                ctx.fillStyle = '#ffffff';
                ctx.fillRect(0, 0, viewportWidth, viewportHeight);
                
                // Try html2canvas approach if available, otherwise fallback to DOM rendering
                if (typeof html2canvas !== 'undefined') {
                    const canvasImage = await html2canvas(document.body, {
                        width: viewportWidth,
                        height: viewportHeight,
                        scale: 1,
                        useCORS: true,
                        allowTaint: true
                    });
                    ctx.drawImage(canvasImage, 0, 0);
                } else {
                    // Enhanced DOM rendering for better visual representation
                    ctx.fillStyle = '#667eea';
                    ctx.fillRect(0, 0, viewportWidth, 80);
                    
                    ctx.fillStyle = '#ffffff';
                    ctx.font = 'bold 24px Arial';
                    ctx.fillText(document.title || 'WSL2 Screenshot', 20, 50);
                    
                    // Render visible elements
                    ctx.fillStyle = '#333333';
                    ctx.font = '14px Arial';
                    
                    let y = 120;
                    const elements = document.querySelectorAll('h1, h2, h3, .card, .amount');
                    elements.forEach((el, index) => {
                        if (y > viewportHeight - 30) return;
                        
                        const text = el.textContent?.trim().substring(0, 100) || '';
                        if (text) {
                            const tagName = el.tagName.toLowerCase();
                            if (tagName.startsWith('h')) {
                                ctx.font = 'bold 16px Arial';
                                ctx.fillStyle = '#2563eb';
                            } else if (el.classList.contains('amount')) {
                                ctx.font = 'bold 18px Arial';
                                ctx.fillStyle = '#059669';
                            } else {
                                ctx.font = '14px Arial';
                                ctx.fillStyle = '#333333';
                            }
                            
                            ctx.fillText(text, 20, y);
                            y += 25;
                        }
                    });
                    
                    // Add metadata
                    ctx.fillStyle = '#666666';
                    ctx.font = '12px Arial';
                    ctx.fillText('Captured from: ' + window.location.href, 20, viewportHeight - 20);
                }
                
                // Store the result in a global variable
                window.__tauriScreenshotData = canvas.toDataURL('image/jpeg', "#;

/// The script between the two mentions of the quality.
pub const SCRIPT_AFTER_QUALITY: &'static str = r#");
                
            } catch (err) {
                console.error('WSL2 screenshot error:', err);
                // Return a basic error image
                const canvas = document.createElement('canvas');
                const ctx = canvas.getContext('2d');
                canvas.width = 800;
                canvas.height = 600;
                ctx.fillStyle = '#f0f0f0';
                ctx.fillRect(0, 0, 800, 600);
                ctx.fillStyle = '#333333';
                ctx.font = 'bold 20px Arial';
                ctx.fillText('WSL2 Screenshot Capture Failed', 20, 50);
                ctx.font = '16px Arial';
                ctx.fillText('Page: ' + document.title, 20, 100);
                ctx.fillText('URL: ' + window.location.href, 20, 130);
                ctx.fillText('Error: ' + err.message, 20, 160);
                
                window.__tauriScreenshotData = canvas.toDataURL('image/jpeg', "#;

/// The rest of the script.
pub const SCRIPT_TAIL: &'static str = r#");
            }
        })();
        "#;

/// The script that reads back what the first script has stored.
pub const RETRIEVE_SCRIPT: &'static str = "window.__tauriScreenshotData";

/// The quality as the fraction of one that the canvas takes: hundredths,
/// written in the shortest way, so `85` is `0.85`, `50` is `0.5`, `5` is
/// `0.05` and `100` is `1`. A quality above 100 counts as 100.
pub open spec fn fraction_text(quality: int) -> Seq<char> {
    if quality >= 100 {
        seq!['1']
    } else if quality <= 0 {
        seq!['0']
    } else if quality % 10 == 0 {
        seq!['0', '.', digit_char(quality / 10)]
    } else {
        seq!['0', '.', digit_char(quality / 10), digit_char(quality % 10)]
    }
}

/// The script for a canvas of at most `max_width` pixels across, read out at
/// the given quality.
pub open spec fn render_script_text(max_width: int, quality: int) -> Seq<char> {
    SCRIPT_HEAD@ + decimal_text(max_width as nat) + SCRIPT_AFTER_WIDTH@ + fraction_text(quality)
        + SCRIPT_AFTER_QUALITY@ + fraction_text(quality) + SCRIPT_TAIL@
}

/// Appends the quality as a fraction of one.
fn append_fraction(out: &mut String, quality: u8)
    ensures
        final(out)@ == old(out)@ + fraction_text(quality as int),
{
    if quality >= 100 {
        push_char(out, '1');
        assert(out@ =~= old(out)@ + fraction_text(quality as int));
    } else if quality == 0 {
        push_char(out, '0');
        assert(out@ =~= old(out)@ + fraction_text(quality as int));
    } else {
        push_char(out, '0');
        push_char(out, '.');
        push_char(out, (48 + quality / 10) as char);
        if quality % 10 != 0 {
            push_char(out, (48 + quality % 10) as char);
        }
        assert(out@ =~= old(out)@ + fraction_text(quality as int));
    }
}

/// Writes the script for a canvas of at most `max_width` pixels across, read
/// out at the given quality.
pub fn render_script(max_width: u32, quality: u8) -> (r: String)
    ensures
        r@ == render_script_text(max_width as int, quality as int),
{
    let mut out = SCRIPT_HEAD.to_owned();
    append_decimal(&mut out, max_width as u128);
    out.append(SCRIPT_AFTER_WIDTH);
    append_fraction(&mut out, quality);
    out.append(SCRIPT_AFTER_QUALITY);
    append_fraction(&mut out, quality);
    out.append(SCRIPT_TAIL);
    out
}

} // verus!
