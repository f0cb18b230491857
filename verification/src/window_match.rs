//! Choosing the on-screen window that a screenshot request means.
//!
//! Windows are compared without regard to case. A request may name an
//! application; a window of that application is preferred over any window that
//! merely has a fitting title. Among titles, an exact match is preferred over a
//! title that only contains the wanted one. Within one rule the window that the
//! system listed first wins. Minimized windows are never chosen.

use crate::text::{
    contains_text, lemma_contains_self, lowercase, str_contains, str_same, to_lowercase,
};
use vstd::prelude::*;

verus! {

/// What the matching rules read of one on-screen window.
#[derive(Debug, Clone, PartialEq, Eq)]
pub struct WindowInfo {
    pub title: String,
    pub app_name: String,
    pub minimized: bool,
}

/// Mathematical form of a [`WindowInfo`].
pub struct WindowView {
    pub title: Seq<char>,
    pub app_name: Seq<char>,
    pub minimized: bool,
}

impl View for WindowInfo {
    type V = WindowView;

    open spec fn view(&self) -> WindowView {
        WindowView { title: self.title@, app_name: self.app_name@, minimized: self.minimized }
    }
}

impl DeepView for WindowInfo {
    type V = WindowView;

    open spec fn deep_view(&self) -> WindowView {
        self@
    }
}

/// The three matching rules, strongest first.
#[derive(Debug, Clone, Copy, PartialEq, Eq, Structural)]
pub enum MatchRule {
    /// The window's application name contains the requested one.
    AppName,
    /// The window's title equals the wanted title.
    ExactTitle,
    /// The window's title contains the wanted title.
    TitlePart,
}

/// `w` satisfies `rule` for the wanted `title` and the requested application `app`.
pub open spec fn window_matches(
    w: WindowView,
    rule: MatchRule,
    title: Seq<char>,
    app: Seq<char>,
) -> bool {
    !w.minimized && match rule {
        MatchRule::AppName => app.len() > 0 && contains_text(lowercase(w.app_name), lowercase(app)),
        MatchRule::ExactTitle => lowercase(w.title) == lowercase(title),
        MatchRule::TitlePart => contains_text(lowercase(w.title), lowercase(title)),
    }
}

/// `i` is the first window of `ws` that satisfies `rule`.
pub open spec fn is_first_match(
    ws: Seq<WindowView>,
    rule: MatchRule,
    title: Seq<char>,
    app: Seq<char>,
    i: int,
) -> bool {
    &&& 0 <= i < ws.len()
    &&& window_matches(ws[i], rule, title, app)
    &&& forall|j: int| 0 <= j < i ==> !window_matches(#[trigger] ws[j], rule, title, app)
}

/// No window of `ws` satisfies `rule`.
pub open spec fn no_match(
    ws: Seq<WindowView>,
    rule: MatchRule,
    title: Seq<char>,
    app: Seq<char>,
) -> bool {
    forall|j: int| 0 <= j < ws.len() ==> !window_matches(#[trigger] ws[j], rule, title, app)
}

/// The first window of `ws` that satisfies `rule`, if any does.
pub open spec fn first_match(
    ws: Seq<WindowView>,
    rule: MatchRule,
    title: Seq<char>,
    app: Seq<char>,
) -> Option<int> {
    if no_match(ws, rule, title, app) {
        None
    } else {
        Some(choose|i: int| is_first_match(ws, rule, title, app, i))
    }
}

/// The window that a request for `title` and `app` selects from `ws`: the first
/// match of the strongest rule that matches anything.
pub open spec fn selected_window(
    ws: Seq<WindowView>,
    title: Seq<char>,
    app: Seq<char>,
) -> Option<int> {
    if first_match(ws, MatchRule::AppName, title, app) is Some {
        first_match(ws, MatchRule::AppName, title, app)
    } else if first_match(ws, MatchRule::ExactTitle, title, app) is Some {
        first_match(ws, MatchRule::ExactTitle, title, app)
    } else {
        first_match(ws, MatchRule::TitlePart, title, app)
    }
}

/// A first match, once exhibited, is the value of [`first_match`].
pub proof fn lemma_first_match_is(
    ws: Seq<WindowView>,
    rule: MatchRule,
    title: Seq<char>,
    app: Seq<char>,
    i: int,
)
    requires
        is_first_match(ws, rule, title, app, i),
    ensures
        first_match(ws, rule, title, app) == Some(i),
{
    let c = choose|k: int| is_first_match(ws, rule, title, app, k);
    assert(is_first_match(ws, rule, title, app, c));
    if c < i {
        assert(!window_matches(ws[c], rule, title, app));
    }
    if i < c {
        assert(!window_matches(ws[i], rule, title, app));
    }
}

/// Two windows that the rules cannot tell apart: equal up to the case of their
/// texts.
pub open spec fn same_up_to_case(a: WindowView, b: WindowView) -> bool {
    &&& a.minimized == b.minimized
    &&& lowercase(a.title) == lowercase(b.title)
    &&& lowercase(a.app_name) == lowercase(b.app_name)
}

/// The value of [`first_match`] is a first match, or nothing matches.
pub proof fn lemma_first_match_value(
    ws: Seq<WindowView>,
    rule: MatchRule,
    title: Seq<char>,
    app: Seq<char>,
)
    ensures
        match first_match(ws, rule, title, app) {
            Some(i) => is_first_match(ws, rule, title, app, i),
            None => no_match(ws, rule, title, app),
        },
{
    if !no_match(ws, rule, title, app) {
        let k = choose|k: int| 0 <= k < ws.len() && window_matches(ws[k], rule, title, app);
        lemma_least_match(ws, rule, title, app, k);
    }
}

/// Below every match there is a first match.
proof fn lemma_least_match(
    ws: Seq<WindowView>,
    rule: MatchRule,
    title: Seq<char>,
    app: Seq<char>,
    k: int,
)
    requires
        0 <= k < ws.len(),
        window_matches(ws[k], rule, title, app),
    ensures
        exists|i: int| is_first_match(ws, rule, title, app, i),
    decreases k,
{
    if exists|j: int| 0 <= j < k && window_matches(ws[j], rule, title, app) {
        let j = choose|j: int| 0 <= j < k && window_matches(ws[j], rule, title, app);
        lemma_least_match(ws, rule, title, app, j);
    } else {
        assert(is_first_match(ws, rule, title, app, k));
    }
}

/// Matching ignores case: requests and window lists that agree once every text
/// is put in lower case select the same window.
pub proof fn lemma_selection_ignores_case(
    ws1: Seq<WindowView>,
    title1: Seq<char>,
    app1: Seq<char>,
    ws2: Seq<WindowView>,
    title2: Seq<char>,
    app2: Seq<char>,
)
    requires
        ws1.len() == ws2.len(),
        forall|i: int| 0 <= i < ws1.len() ==> same_up_to_case(#[trigger] ws1[i], ws2[i]),
        lowercase(title1) == lowercase(title2),
        lowercase(app1) == lowercase(app2),
        (app1.len() == 0) == (app2.len() == 0),
    ensures
        selected_window(ws1, title1, app1) == selected_window(ws2, title2, app2),
{
    lemma_rule_ignores_case(ws1, title1, app1, ws2, title2, app2, MatchRule::AppName);
    lemma_rule_ignores_case(ws1, title1, app1, ws2, title2, app2, MatchRule::ExactTitle);
    lemma_rule_ignores_case(ws1, title1, app1, ws2, title2, app2, MatchRule::TitlePart);
}

proof fn lemma_rule_ignores_case(
    ws1: Seq<WindowView>,
    title1: Seq<char>,
    app1: Seq<char>,
    ws2: Seq<WindowView>,
    title2: Seq<char>,
    app2: Seq<char>,
    rule: MatchRule,
)
    requires
        ws1.len() == ws2.len(),
        forall|i: int| 0 <= i < ws1.len() ==> same_up_to_case(#[trigger] ws1[i], ws2[i]),
        lowercase(title1) == lowercase(title2),
        lowercase(app1) == lowercase(app2),
        (app1.len() == 0) == (app2.len() == 0),
    ensures
        first_match(ws1, rule, title1, app1) == first_match(ws2, rule, title2, app2),
{
    assert forall|i: int| 0 <= i < ws1.len() implies window_matches(ws1[i], rule, title1, app1)
        == window_matches(ws2[i], rule, title2, app2) by {
        assert(same_up_to_case(ws1[i], ws2[i]));
    }
    lemma_first_match_value(ws1, rule, title1, app1);
    match first_match(ws1, rule, title1, app1) {
        Some(i) => {
            assert forall|j: int| 0 <= j < i implies !window_matches(
                #[trigger] ws2[j],
                rule,
                title2,
                app2,
            ) by {
                assert(!window_matches(ws1[j], rule, title1, app1));
            }
            lemma_first_match_is(ws2, rule, title2, app2, i);
        },
        None => {
            assert forall|j: int| 0 <= j < ws2.len() implies !window_matches(
                #[trigger] ws2[j],
                rule,
                title2,
                app2,
            ) by {
                assert(!window_matches(ws1[j], rule, title1, app1));
            }
        },
    }
}

/// The application name outranks the title: when the request names an
/// application and a visible window belongs to it, the first such window is
/// selected, whatever the titles of the other windows are.
pub proof fn lemma_app_name_outranks_title(
    ws: Seq<WindowView>,
    title: Seq<char>,
    app: Seq<char>,
    i: int,
)
    requires
        is_first_match(ws, MatchRule::AppName, title, app, i),
    ensures
        selected_window(ws, title, app) == Some(i),
{
    lemma_first_match_is(ws, MatchRule::AppName, title, app, i);
}

/// An exact title outranks a title that only contains the wanted one, when no
/// window matches by application name.
pub proof fn lemma_exact_title_outranks_part(
    ws: Seq<WindowView>,
    title: Seq<char>,
    app: Seq<char>,
    i: int,
)
    requires
        no_match(ws, MatchRule::AppName, title, app),
        is_first_match(ws, MatchRule::ExactTitle, title, app, i),
    ensures
        selected_window(ws, title, app) == Some(i),
{
    lemma_first_match_is(ws, MatchRule::ExactTitle, title, app, i);
}

/// A window whose title is the wanted one also contains it: the rule for exact
/// titles decides which window is preferred, not which windows can be found.
pub proof fn lemma_exact_title_is_also_part(w: WindowView, title: Seq<char>, app: Seq<char>)
    requires
        window_matches(w, MatchRule::ExactTitle, title, app),
    ensures
        window_matches(w, MatchRule::TitlePart, title, app),
{
    lemma_contains_self(lowercase(w.title));
}

/// A request that names no application is matched by title alone.
pub proof fn lemma_empty_app_name_is_no_filter(ws: Seq<WindowView>, title: Seq<char>)
    ensures
        no_match(ws, MatchRule::AppName, title, Seq::<char>::empty()),
        selected_window(ws, title, Seq::<char>::empty()) == (if first_match(
            ws,
            MatchRule::ExactTitle,
            title,
            Seq::<char>::empty(),
        ) is Some {
            first_match(ws, MatchRule::ExactTitle, title, Seq::<char>::empty())
        } else {
            first_match(ws, MatchRule::TitlePart, title, Seq::<char>::empty())
        }),
{
}

/// The selected window exists, is not minimized and satisfies one of the rules;
/// nothing is selected only when no visible window satisfies any rule.
pub proof fn lemma_selected_window_is_visible_match(
    ws: Seq<WindowView>,
    title: Seq<char>,
    app: Seq<char>,
)
    ensures
        match selected_window(ws, title, app) {
            Some(i) => {
                &&& 0 <= i < ws.len()
                &&& !ws[i].minimized
                &&& (window_matches(ws[i], MatchRule::AppName, title, app) || window_matches(
                    ws[i],
                    MatchRule::ExactTitle,
                    title,
                    app,
                ) || window_matches(ws[i], MatchRule::TitlePart, title, app))
            },
            None => forall|j: int, rule: MatchRule|
                0 <= j < ws.len() ==> !#[trigger] window_matches(ws[j], rule, title, app),
        },
{
    lemma_first_match_value(ws, MatchRule::AppName, title, app);
    lemma_first_match_value(ws, MatchRule::ExactTitle, title, app);
    lemma_first_match_value(ws, MatchRule::TitlePart, title, app);
    if selected_window(ws, title, app) is None {
        assert forall|j: int, rule: MatchRule| 0 <= j < ws.len() implies !#[trigger] window_matches(
            ws[j],
            rule,
            title,
            app,
        ) by {
            match rule {
                MatchRule::AppName => {},
                MatchRule::ExactTitle => {},
                MatchRule::TitlePart => {},
            }
        }
    }
}

/// The index of the first window that satisfies `rule`.
fn scan(
    windows: &Vec<WindowInfo>,
    rule: MatchRule,
    title: &str,
    app: &str,
    title_lower: &str,
    app_lower: &str,
) -> (r: Option<usize>)
    requires
        title_lower@ == lowercase(title@),
        app_lower@ == lowercase(app@),
    ensures
        match r {
            Some(i) => first_match(windows.deep_view(), rule, title@, app@) == Some(i as int),
            None => first_match(windows.deep_view(), rule, title@, app@) is None,
        },
{
    let ghost ws = windows.deep_view();
    let mut i: usize = 0;
    while i < windows.len()
        invariant
            i <= windows.len(),
            ws == windows.deep_view(),
            ws.len() == windows.len(),
            title_lower@ == lowercase(title@),
            app_lower@ == lowercase(app@),
            forall|j: int| 0 <= j < i ==> !window_matches(#[trigger] ws[j], rule, title@, app@),
        decreases windows.len() - i,
    {
        let w = &windows[i];
        assert(ws[i as int] == w@);
        let hit = if w.minimized {
            false
        } else {
            match rule {
                MatchRule::AppName => {
                    if app.is_empty() {
                        false
                    } else {
                        let name = to_lowercase(w.app_name.as_str());
                        str_contains(name.as_str(), app_lower)
                    }
                },
                MatchRule::ExactTitle => {
                    let t = to_lowercase(w.title.as_str());
                    str_same(t.as_str(), title_lower)
                },
                MatchRule::TitlePart => {
                    let t = to_lowercase(w.title.as_str());
                    str_contains(t.as_str(), title_lower)
                },
            }
        };
        assert(hit == window_matches(ws[i as int], rule, title@, app@));
        if hit {
            proof {
                lemma_first_match_is(ws, rule, title@, app@, i as int);
            }
            return Some(i);
        }
        i += 1;
    }
    None
}

/// Finds the window that a request means.
///
/// `window_title` is the title of the window the request is for, and
/// `application_name` the application it names, empty when it names none.
/// Returns the position in `windows` of the selected window.
pub fn find_window(windows: &Vec<WindowInfo>, window_title: &str, application_name: &str) -> (r:
    Option<usize>)
    ensures
        match r {
            Some(i) => selected_window(windows.deep_view(), window_title@, application_name@)
                == Some(i as int),
            None => selected_window(windows.deep_view(), window_title@, application_name@) is None,
        },
{
    let title_lower = to_lowercase(window_title);
    let app_lower = to_lowercase(application_name);
    let by_app = scan(
        windows,
        MatchRule::AppName,
        window_title,
        application_name,
        title_lower.as_str(),
        app_lower.as_str(),
    );
    if by_app.is_some() {
        return by_app;
    }
    let by_title = scan(
        windows,
        MatchRule::ExactTitle,
        window_title,
        application_name,
        title_lower.as_str(),
        app_lower.as_str(),
    );
    if by_title.is_some() {
        return by_title;
    }
    scan(
        windows,
        MatchRule::TitlePart,
        window_title,
        application_name,
        title_lower.as_str(),
        app_lower.as_str(),
    )
}

} // verus!
