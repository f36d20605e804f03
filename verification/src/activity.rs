//! Desktop activity: classification of the focused window, the context that
//! retains the last meaningful window, and the parsers for Hyprland's event
//! lines and `hyprctl activewindow` output.

use crate::text::{
    ascii_lowercase, ascii_lowercase_range, chars_of, eq_ignore_ascii_case, find, find_char,
    lemma_find_char_bounds, lines, lines_from, range_eq, range_eq_ignore_ascii_case,
    range_starts_with, skip_white_space, starts_with, strip_carriage_return, substring, trim,
    trim_bounds, trim_start,
};
use vstd::prelude::*;

verus! {

/// Category of the focused desktop application.
#[derive(Clone, Copy, Debug, PartialEq, Eq, Structural)]
pub enum ActivityCategory {
    Browser,
    Development,
    Terminal,
    Gaming,
    Media,
    Other,
}

/// The focused window as Hyprland reports it.
#[derive(Clone, Debug, PartialEq, Eq)]
pub struct ActiveWindow {
    pub class: String,
    pub title: String,
}

impl View for ActiveWindow {
    type V = (Seq<char>, Seq<char>);

    open spec fn view(&self) -> (Seq<char>, Seq<char>) {
        (self.class@, self.title@)
    }
}

pub open spec fn browser_names() -> Seq<Seq<char>> {
    seq![
        seq!['f', 'i', 'r', 'e', 'f', 'o', 'x'],
        seq!['g', 'o', 'o', 'g', 'l', 'e', '-', 'c', 'h', 'r', 'o', 'm', 'e'],
        seq!['c', 'h', 'r', 'o', 'm', 'i', 'u', 'm'],
    ]
}

/// The category of a normalized (trimmed, lower-case) window class.
pub open spec fn category_for_name(name: Seq<char>) -> ActivityCategory {
    if name == seq!['f', 'i', 'r', 'e', 'f', 'o', 'x'] || name == seq![
        'g',
        'o',
        'o',
        'g',
        'l',
        'e',
        '-',
        'c',
        'h',
        'r',
        'o',
        'm',
        'e',
    ] || name == seq!['c', 'h', 'r', 'o', 'm', 'i', 'u', 'm'] {
        ActivityCategory::Browser
    } else if name == seq!['c', 'o', 'd', 'e'] || name == seq!['c', 'o', 'd', 'e', '-', 'o', 's', 's'] {
        ActivityCategory::Development
    } else if name == seq!['k', 'i', 't', 't', 'y'] || name == seq![
        'a',
        'l',
        'a',
        'c',
        'r',
        'i',
        't',
        't',
        'y',
    ] {
        ActivityCategory::Terminal
    } else if name == seq!['s', 't', 'e', 'a', 'm'] {
        ActivityCategory::Gaming
    } else if name == seq!['s', 'p', 'o', 't', 'i', 'f', 'y'] {
        ActivityCategory::Media
    } else {
        ActivityCategory::Other
    }
}

/// The category of a window class: matched case-insensitively after
/// trimming white space.
pub open spec fn spec_classify(class: Seq<char>) -> ActivityCategory {
    category_for_name(ascii_lowercase(trim(class)))
}

pub fn classify_window(window: &ActiveWindow) -> (category: ActivityCategory)
    ensures
        category == spec_classify(window.class@),
{
    classify_class(&chars_of(window.class.as_str()))
}

fn classify_class(class: &Vec<char>) -> (category: ActivityCategory)
    ensures
        category == spec_classify(class@),
{
    let (start, end) = trim_bounds(class);
    let name = ascii_lowercase_range(class, start, end);
    let len = name.len();
    if range_eq(&name, 0, len, &['f', 'i', 'r', 'e', 'f', 'o', 'x']) || range_eq(
        &name,
        0,
        len,
        &['g', 'o', 'o', 'g', 'l', 'e', '-', 'c', 'h', 'r', 'o', 'm', 'e'],
    ) || range_eq(&name, 0, len, &['c', 'h', 'r', 'o', 'm', 'i', 'u', 'm']) {
        assert(name@.subrange(0, len as int) =~= name@);
        ActivityCategory::Browser
    } else if range_eq(&name, 0, len, &['c', 'o', 'd', 'e']) || range_eq(
        &name,
        0,
        len,
        &['c', 'o', 'd', 'e', '-', 'o', 's', 's'],
    ) {
        assert(name@.subrange(0, len as int) =~= name@);
        ActivityCategory::Development
    } else if range_eq(&name, 0, len, &['k', 'i', 't', 't', 'y']) || range_eq(
        &name,
        0,
        len,
        &['a', 'l', 'a', 'c', 'r', 'i', 't', 't', 'y'],
    ) {
        assert(name@.subrange(0, len as int) =~= name@);
        ActivityCategory::Terminal
    } else if range_eq(&name, 0, len, &['s', 't', 'e', 'a', 'm']) {
        assert(name@.subrange(0, len as int) =~= name@);
        ActivityCategory::Gaming
    } else if range_eq(&name, 0, len, &['s', 'p', 'o', 't', 'i', 'f', 'y']) {
        assert(name@.subrange(0, len as int) =~= name@);
        ActivityCategory::Media
    } else {
        assert(name@.subrange(0, len as int) =~= name@);
        ActivityCategory::Other
    }
}

/// Whether two windows have the same class and title.
pub fn same_window(a: &ActiveWindow, b: &ActiveWindow) -> (same: bool)
    ensures
        same == (a@ == b@),
{
    a.class == b.class && a.title == b.title
}

/// What observing one window event reported: the current category when it
/// changed, and the transition between two different categories.
#[derive(Clone, Copy, Debug, PartialEq, Eq)]
pub struct ActivityUpdate {
    pub current_category: Option<ActivityCategory>,
    pub transition: Option<(ActivityCategory, ActivityCategory)>,
}

pub open spec fn window_category(window: Option<(Seq<char>, Seq<char>)>) -> Option<ActivityCategory> {
    match window {
        Some(w) => Some(spec_classify(w.0)),
        None => None,
    }
}

pub open spec fn window_view(window: Option<ActiveWindow>) -> Option<(Seq<char>, Seq<char>)> {
    match window {
        Some(w) => Some(w@),
        None => None,
    }
}

/// The last meaningful focused window. Milo's own window and windows
/// without a class never replace it.
pub struct ActivityContext {
    pub milo_class: Vec<char>,
    pub current: Option<ActiveWindow>,
}

impl ActivityContext {
    /// Milo's own class, in lower case.
    pub open spec fn milo_class(self) -> Seq<char> {
        self.milo_class@
    }

    pub open spec fn current_view(self) -> Option<(Seq<char>, Seq<char>)> {
        window_view(self.current)
    }

    /// Events that leave the context unchanged: an empty class, Milo's own
    /// class (ignoring ASCII case), or the same window again.
    pub open spec fn ignores(self, window: (Seq<char>, Seq<char>)) -> bool {
        ||| trim(window.0).len() == 0
        ||| eq_ignore_ascii_case(trim(window.0), self.milo_class())
        ||| self.current_view() == Some(window)
    }

    /// The category transition reported when `window` replaces the current
    /// window.
    pub open spec fn spec_transition(self, window: (Seq<char>, Seq<char>)) -> Option<
        (ActivityCategory, ActivityCategory),
    > {
        match self.current_view() {
            Some(current) => {
                if spec_classify(current.0) != spec_classify(window.0) {
                    Some((spec_classify(current.0), spec_classify(window.0)))
                } else {
                    None
                }
            },
            None => None,
        }
    }

    pub fn new(milo_class: &str) -> (context: Self)
        ensures
            context.milo_class() == ascii_lowercase(milo_class@),
            context.current is None,
    {
        let chars = chars_of(milo_class);
        let lower = ascii_lowercase_range(&chars, 0, chars.len());
        assert(chars@.subrange(0, chars@.len() as int) =~= chars@);
        ActivityContext { milo_class: lower, current: None }
    }

    /// Observes a focused window; reports a transition only between two
    /// different categories.
    pub fn observe(&mut self, window: ActiveWindow) -> (transition: Option<
        (ActivityCategory, ActivityCategory),
    >)
        ensures
            final(self).milo_class() == old(self).milo_class(),
            if old(self).ignores(window@) {
                &&& transition is None
                &&& final(self).current_view() == old(self).current_view()
            } else {
                &&& transition == old(self).spec_transition(window@)
                &&& final(self).current_view() == Some(window@)
            },
    {
        let class = chars_of(window.class.as_str());
        let (start, end) = trim_bounds(&class);
        if start == end || range_eq_ignore_ascii_case(&class, start, end, &self.milo_class) {
            return None;
        }
        let unchanged = match &self.current {
            Some(current) => same_window(current, &window),
            None => false,
        };
        if unchanged {
            return None;
        }
        let current_category = classify_class(&class);
        let previous_category = match &self.current {
            Some(current) => Some(classify_window(current)),
            None => None,
        };
        self.current = Some(window);
        match previous_category {
            Some(previous) => {
                if previous != current_category {
                    Some((previous, current_category))
                } else {
                    None
                }
            },
            None => None,
        }
    }

    /// One event of the activity monitor: the observation plus the current
    /// category whenever it changed.
    pub fn observe_window(&mut self, window: ActiveWindow) -> (update: ActivityUpdate)
        ensures
            final(self).milo_class() == old(self).milo_class(),
            if old(self).ignores(window@) {
                &&& update == ActivityUpdate { current_category: None, transition: None }
                &&& final(self).current_view() == old(self).current_view()
            } else {
                &&& update.transition == old(self).spec_transition(window@)
                &&& final(self).current_view() == Some(window@)
                &&& update.current_category == (if window_category(old(self).current_view())
                    == Some(spec_classify(window@.0)) {
                    None
                } else {
                    Some(spec_classify(window@.0))
                })
            },
    {
        let previous_category = match &self.current {
            Some(current) => Some(classify_window(current)),
            None => None,
        };
        let transition = self.observe(window);
        let current_category = match &self.current {
            Some(current) => Some(classify_window(current)),
            None => None,
        };
        let changed = match (previous_category, current_category) {
            (Some(a), Some(b)) => a != b,
            (None, Some(_)) => true,
            _ => false,
        };
        ActivityUpdate {
            current_category: if changed {
                current_category
            } else {
                None
            },
            transition,
        }
    }
}

/// The prefix of Hyprland's active-window event lines.
pub open spec fn event_prefix() -> Seq<char> {
    seq!['a', 'c', 't', 'i', 'v', 'e', 'w', 'i', 'n', 'd', 'o', 'w', '>', '>']
}

/// Class and title of an `activewindow>>CLASS,TITLE` event: split at the
/// first comma, so later commas stay in the title.
pub open spec fn spec_parse_active_window_event(event: Seq<char>) -> Option<(Seq<char>, Seq<char>)> {
    if !starts_with(event, event_prefix()) {
        None
    } else {
        let comma = find_char(event, ',', event_prefix().len() as int);
        if comma < event.len() {
            Some(
                (
                    event.subrange(event_prefix().len() as int, comma),
                    event.subrange(comma + 1, event.len() as int),
                ),
            )
        } else {
            None
        }
    }
}

/// An active-window event gives back the window it was written from: the
/// line `activewindow>>` + class + `,` + title parses to that class and
/// title whenever the class holds no comma, whatever commas the title holds.
/// A line with another start, or with no comma after the prefix, is no such
/// event.
pub proof fn lemma_active_window_event_round_trip(class: Seq<char>, title: Seq<char>, line: Seq<char>)
    requires
        !class.contains(','),
    ensures
        spec_parse_active_window_event(
            seq!['a', 'c', 't', 'i', 'v', 'e', 'w', 'i', 'n', 'd', 'o', 'w', '>', '>'] + class
                + seq![','] + title,
        ) == Some((class, title)),
        !starts_with(line, seq!['a', 'c', 't', 'i', 'v', 'e', 'w', 'i', 'n', 'd', 'o', 'w', '>', '>'])
            ==> spec_parse_active_window_event(line) is None,
        (forall|i: int| 14 <= i < line.len() ==> line[i] != ',') ==> spec_parse_active_window_event(
            line,
        ) is None,
{
    let prefix = seq!['a', 'c', 't', 'i', 'v', 'e', 'w', 'i', 'n', 'd', 'o', 'w', '>', '>'];
    assert(prefix =~= event_prefix());
    let event = prefix + class + seq![','] + title;
    let comma: int = class.len() as int + 14;
    assert(event.subrange(0, 14int) =~= prefix);
    lemma_find_char_bounds(event, ',', 14);
    let found = find_char(event, ',', 14);
    assert(event[comma] == ',');
    if found < comma {
        assert(event[found] == class[found - 14]);
        assert(class.contains(','));
    }
    assert(found == comma);
    assert(event.subrange(14int, comma) =~= class);
    assert(event.subrange(comma + 1, event.len() as int) =~= title);
    lemma_find_char_bounds(line, ',', 14);
}

pub fn parse_active_window_event(event: &str) -> (window: Option<ActiveWindow>)
    ensures
        window_view(window) == spec_parse_active_window_event(event@),
{
    let chars = chars_of(event);
    let prefix = ['a', 'c', 't', 'i', 'v', 'e', 'w', 'i', 'n', 'd', 'o', 'w', '>', '>'];
    if !range_starts_with(&chars, 0, chars.len(), &prefix) {
        assert(chars@.subrange(0, chars@.len() as int) =~= chars@);
        assert(prefix@ =~= event_prefix());
        return None;
    }
    assert(chars@.subrange(0, chars@.len() as int) =~= chars@);
    assert(prefix@ =~= event_prefix());
    let comma = find(&chars, ',', 14);
    if comma >= chars.len() {
        return None;
    }
    let class = substring(event, 14, comma);
    let title = substring(event, comma + 1, chars.len());
    Some(ActiveWindow { class, title })
}

pub open spec fn class_key() -> Seq<char> {
    seq!['c', 'l', 'a', 's', 's', ':']
}

pub open spec fn title_key() -> Seq<char> {
    seq!['t', 'i', 't', 'l', 'e', ':']
}

/// One line of `hyprctl activewindow` output: a `class:` or `title:` field
/// (after leading white space) replaces the value found so far.
pub open spec fn hyprctl_step(
    line: Seq<char>,
    class: Option<Seq<char>>,
    title: Option<Seq<char>>,
) -> (Option<Seq<char>>, Option<Seq<char>>) {
    let field = trim_start(line);
    if starts_with(field, class_key()) {
        (Some(trim_start(field.subrange(6, field.len() as int))), title)
    } else if starts_with(field, title_key()) {
        (class, Some(trim_start(field.subrange(6, field.len() as int))))
    } else {
        (class, title)
    }
}

pub open spec fn scan_hyprctl(
    lines: Seq<Seq<char>>,
    class: Option<Seq<char>>,
    title: Option<Seq<char>>,
) -> (Option<Seq<char>>, Option<Seq<char>>)
    decreases lines.len(),
{
    if lines.len() == 0 {
        (class, title)
    } else {
        let (c, t) = hyprctl_step(lines[0], class, title);
        scan_hyprctl(lines.drop_first(), c, t)
    }
}

/// The window described by `hyprctl activewindow` output: the last `class:`
/// and the last `title:` field, both required.
pub open spec fn spec_parse_hyprctl_active_window(output: Seq<char>) -> Option<
    (Seq<char>, Seq<char>),
> {
    match scan_hyprctl(lines(output), None, None) {
        (Some(class), Some(title)) => Some((class, title)),
        _ => None,
    }
}

pub open spec fn range_value(chars: Seq<char>, range: Option<(usize, usize)>) -> Option<Seq<char>> {
    match range {
        Some((from, to)) => Some(chars.subrange(from as int, to as int)),
        None => None,
    }
}

pub fn parse_hyprctl_active_window(output: &str) -> (window: Option<ActiveWindow>)
    ensures
        window_view(window) == spec_parse_hyprctl_active_window(output@),
{
    let chars = chars_of(output);
    let len = chars.len();
    let class_prefix = ['c', 'l', 'a', 's', 's', ':'];
    let title_prefix = ['t', 'i', 't', 'l', 'e', ':'];
    assert(class_prefix@ =~= class_key());
    assert(title_prefix@ =~= title_key());
    let mut class: Option<(usize, usize)> = None;
    let mut title: Option<(usize, usize)> = None;
    let mut start: usize = 0;
    while start < len
        invariant
            len == chars@.len(),
            chars@ == output@,
            class_prefix@ == class_key(),
            title_prefix@ == title_key(),
            start <= len,
            class matches Some((a, b)) ==> a <= b <= len,
            title matches Some((a, b)) ==> a <= b <= len,
            scan_hyprctl(lines_from(chars@, start as int), range_value(chars@, class), range_value(chars@, title))
                == scan_hyprctl(lines(chars@), None, None),
        decreases len - start,
    {
        let newline = find(&chars, '\n', start);
        proof {
            lemma_find_char_bounds(chars@, '\n', start as int);
        }
        let line_end = if newline < len && newline > start && chars[newline - 1] == '\r' {
            newline - 1
        } else {
            newline
        };
        let ghost line = if newline < len {
            strip_carriage_return(chars@.subrange(start as int, newline as int))
        } else {
            chars@.subrange(start as int, len as int)
        };
        assert(line =~= chars@.subrange(start as int, line_end as int));
        let ghost rest = if newline < len {
            lines_from(chars@, newline + 1)
        } else {
            Seq::<Seq<char>>::empty()
        };
        assert(lines_from(chars@, start as int) =~= seq![line] + rest);
        assert((seq![line] + rest).drop_first() =~= rest);
        let field_start = skip_white_space(&chars, start, line_end);
        let ghost field = trim_start(line);
        assert(field =~= chars@.subrange(field_start as int, line_end as int));
        if range_starts_with(&chars, field_start, line_end, &class_prefix) {
            let value_start = skip_white_space(&chars, field_start + 6, line_end);
            assert(field.subrange(6, field.len() as int) =~= chars@.subrange(
                field_start + 6,
                line_end as int,
            ));
            class = Some((value_start, line_end));
        } else if range_starts_with(&chars, field_start, line_end, &title_prefix) {
            let value_start = skip_white_space(&chars, field_start + 6, line_end);
            assert(field.subrange(6, field.len() as int) =~= chars@.subrange(
                field_start + 6,
                line_end as int,
            ));
            title = Some((value_start, line_end));
        }
        if newline >= len {
            assert(lines_from(chars@, len as int) =~= Seq::<Seq<char>>::empty());
            start = len;
        } else {
            start = newline + 1;
        }
    }
    assert(lines_from(chars@, start as int) =~= Seq::<Seq<char>>::empty());
    match (class, title) {
        (Some((class_from, class_to)), Some((title_from, title_to))) => {
            Some(
                ActiveWindow {
                    class: substring(output, class_from, class_to),
                    title: substring(output, title_from, title_to),
                },
            )
        },
        _ => None,
    }
}

/// What the Hyprland listener learned last.
#[derive(Clone, Copy, Debug, PartialEq, Eq, Structural)]
pub enum ListenerEvent {
    /// The event stream ended (disconnected or failed); `receiver_closed`
    /// tells whether it ended because nobody listens any more.
    StreamEnded { receiver_closed: bool },
    /// A reconnection attempt finished.
    ConnectAttempt { connected: bool, receiver_closed: bool },
}

/// What the Hyprland listener does next.
#[derive(Clone, Copy, Debug, PartialEq, Eq, Structural)]
pub enum ListenerAction {
    /// Read events from the (new) connection.
    Forward,
    /// Wait the reconnect delay, then try to connect again.
    WaitAndReconnect,
    /// Stop listening.
    Stop,
}

pub open spec fn spec_listener_step(event: ListenerEvent) -> ListenerAction {
    match event {
        ListenerEvent::StreamEnded { receiver_closed } => if receiver_closed {
            ListenerAction::Stop
        } else {
            ListenerAction::WaitAndReconnect
        },
        ListenerEvent::ConnectAttempt { connected, receiver_closed } => if connected {
            ListenerAction::Forward
        } else if receiver_closed {
            ListenerAction::Stop
        } else {
            ListenerAction::WaitAndReconnect
        },
    }
}

/// The listener's retry policy: a lost stream is reconnected after a delay,
/// for as long as it takes, and the listener stops only once nobody receives
/// its windows.
pub fn listener_step(event: ListenerEvent) -> (action: ListenerAction)
    ensures
        action == spec_listener_step(event),
        action is Stop ==> (match event {
            ListenerEvent::StreamEnded { receiver_closed } => receiver_closed,
            ListenerEvent::ConnectAttempt { receiver_closed, .. } => receiver_closed,
        }),
{
    match event {
        ListenerEvent::StreamEnded { receiver_closed } => if receiver_closed {
            ListenerAction::Stop
        } else {
            ListenerAction::WaitAndReconnect
        },
        ListenerEvent::ConnectAttempt { connected, receiver_closed } => if connected {
            ListenerAction::Forward
        } else if receiver_closed {
            ListenerAction::Stop
        } else {
            ListenerAction::WaitAndReconnect
        },
    }
}

/// The classification table: a window class is matched after trimming white
/// space and folding ASCII case, and exactly these names select these
/// categories; every other class is Other.
pub proof fn lemma_classification_table(class: Seq<char>)
    ensures
        ({
            let name = ascii_lowercase(trim(class));
            &&& (spec_classify(class) == ActivityCategory::Browser) == (name == seq![
                'f',
                'i',
                'r',
                'e',
                'f',
                'o',
                'x',
            ] || name == seq!['g', 'o', 'o', 'g', 'l', 'e', '-', 'c', 'h', 'r', 'o', 'm', 'e']
                || name == seq!['c', 'h', 'r', 'o', 'm', 'i', 'u', 'm'])
            &&& (spec_classify(class) == ActivityCategory::Development) == (name == seq![
                'c',
                'o',
                'd',
                'e',
            ] || name == seq!['c', 'o', 'd', 'e', '-', 'o', 's', 's'])
            &&& (spec_classify(class) == ActivityCategory::Terminal) == (name == seq![
                'k',
                'i',
                't',
                't',
                'y',
            ] || name == seq!['a', 'l', 'a', 'c', 'r', 'i', 't', 't', 'y'])
            &&& (spec_classify(class) == ActivityCategory::Gaming) == (name == seq![
                's',
                't',
                'e',
                'a',
                'm',
            ])
            &&& (spec_classify(class) == ActivityCategory::Media) == (name == seq![
                's',
                'p',
                'o',
                't',
                'i',
                'f',
                'y',
            ])
        }),
{
    let name = ascii_lowercase(trim(class));
    if name == seq!['f', 'i', 'r', 'e', 'f', 'o', 'x'] {
        assert(name[0] == 'f');
    }
    if name == seq!['s', 'p', 'o', 't', 'i', 'f', 'y'] {
        assert(name[0] == 's');
    }
    if name == seq!['c', 'o', 'd', 'e'] {
        assert(name[0] == 'c');
    }
    if name == seq!['k', 'i', 't', 't', 'y'] {
        assert(name[0] == 'k');
    }
    if name == seq!['s', 't', 'e', 'a', 'm'] {
        assert(name[0] == 's' && name[1] == 't');
    }
}

} // verus!
