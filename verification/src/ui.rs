//! What the client's screen shows: the text of each log entry, the status line, the
//! visible tail of the input line, and the bookkeeping that keeps the message log
//! scrolled where the user left it while new entries arrive.
use vstd::prelude::*;

use crate::app::{log_view, App, ChatEvent, ChatEventView, ClientStage, StageView};
use crate::text::{
    chars_of, decimal, is_control_char, join, push_decimal, push_str, repeat_char,
    string_from_chars,
};

verus! {

/// The smallest terminal height the client draws its screen in: status, rule, three
/// message rows, rule, input, rule, hints.
pub const MIN_TERMINAL_HEIGHT: u16 = 9;

/// The columns a character takes on screen, as `UnicodeWidthChar::width` gives them:
/// `None` for a control character.
pub uninterp spec fn display_width(c: char) -> Option<usize>;

/// `UnicodeWidthChar::width` from unicode-width. Its result depends on the character
/// alone and is named `display_width`; that it is `None` exactly for control characters
/// and 1 for printable ASCII is stated, the width tables are not.
#[verifier::external_body]
fn char_width(c: char) -> (r: Option<usize>)
    ensures
        r == display_width(c),
        r is None <==> is_control_char(c),
        0x20 <= (c as u32) && (c as u32) < 0x7F ==> r == Some(1usize),
{
    unicode_width::UnicodeWidthChar::width(c)
}

/// The columns a character takes in the input line: control characters take none.
pub open spec fn cell_width(c: char) -> usize {
    match display_width(c) {
        Some(w) => w,
        None => 0,
    }
}

/// The columns of each character of `s`.
pub open spec fn cell_widths(s: Seq<char>) -> Seq<usize> {
    s.map_values(|c: char| cell_width(c))
}

/// The total of `widths[start..]`.
pub open spec fn suffix_width(widths: Seq<usize>, start: nat) -> nat
    decreases widths.len() - start,
{
    if start >= widths.len() {
        0
    } else {
        widths[start as int] as nat + suffix_width(widths, start + 1)
    }
}

/// Whether the tail of a line from `start` is the longest that fits in `max_width`
/// columns: it fits, and taking one more character would not.
pub open spec fn is_trailing_start(widths: Seq<usize>, max_width: usize, start: nat) -> bool {
    &&& start <= widths.len()
    &&& suffix_width(widths, start) <= max_width
    &&& start > 0 ==> suffix_width(widths, (start - 1) as nat) > max_width
}

/// Where the longest tail of a line that fits in `max_width` columns starts, given the
/// width of each character.
pub fn trailing_start(widths: &Vec<usize>, max_width: usize) -> (r: usize)
    ensures
        is_trailing_start(widths@, max_width, r as nat),
{
    let mut start = widths.len();
    let mut width: usize = 0;
    while start > 0
        invariant
            start <= widths.len(),
            width <= max_width,
            width == suffix_width(widths@, start as nat),
        decreases start,
    {
        let w = widths[start - 1];
        if w > max_width - width {
            return start;
        }
        width = width + w;
        start = start - 1;
    }
    start
}

/// The longest tail of `input` that fits in `max_width` columns: what the input line
/// shows when the input is wider than the line.
pub fn trailing_input(input: &str, max_width: usize) -> (r: String)
    ensures
        r@.len() <= input@.len(),
        r@ == input@.subrange(input@.len() - r@.len(), input@.len() as int),
        is_trailing_start(cell_widths(input@), max_width, (input@.len() - r@.len()) as nat),
{
    let chars = chars_of(input);
    let mut widths: Vec<usize> = Vec::new();
    let mut i: usize = 0;
    while i < chars.len()
        invariant
            i <= chars.len(),
            chars@ == input@,
            widths@ == cell_widths(input@).take(i as int),
        decreases chars.len() - i,
    {
        let w = match char_width(chars[i]) {
            Some(w) => w,
            None => 0,
        };
        widths.push(w);
        assert(widths@ =~= cell_widths(input@).take(i + 1));
        i += 1;
    }
    assert(widths@ =~= cell_widths(input@));
    let start = trailing_start(&widths, max_width);
    string_from_chars(&chars, start, chars.len())
}

/// The text of a log entry on screen.
pub open spec fn event_line(event: ChatEventView) -> Seq<char> {
    match event {
        ChatEventView::System(text) => text,
        ChatEventView::Prompt(text) => text,
        ChatEventView::Chat { username, text } => username + "  "@ + text,
        ChatEventView::Joined { username } => username + " joined the room"@,
        ChatEventView::Left { username } => username + " left the room"@,
        ChatEventView::Error(text) => text,
    }
}

/// The text of a log entry on screen.
pub fn event_text(event: &ChatEvent) -> (r: String)
    ensures
        r@ == event_line(event@),
{
    match event {
        ChatEvent::System(text) => text.clone(),
        ChatEvent::Prompt(text) => text.clone(),
        ChatEvent::Chat { username, text } => {
            let mut r = username.clone();
            push_str(&mut r, "  ");
            push_str(&mut r, text.as_str());
            r
        },
        ChatEvent::Joined { username } => {
            let mut r = username.clone();
            push_str(&mut r, " joined the room");
            r
        },
        ChatEvent::Left { username } => {
            let mut r = username.clone();
            push_str(&mut r, " left the room");
            r
        },
        ChatEvent::Error(text) => text.clone(),
    }
}

/// How the status line names a stage.
pub open spec fn stage_line(stage: StageView) -> Seq<char> {
    match stage {
        StageView::Connecting => "Connecting"@,
        StageView::SetUsername => "Entering Username"@,
        StageView::ConfirmUsername { confirmed_username } => "Confirming Username: "@
            + confirmed_username,
        StageView::SelectRoom => "Selecting Room"@,
        StageView::JoiningRoom { room } => "Joining "@ + room,
        StageView::Chatting { room } => "Chatting in "@ + room,
        StageView::Disconnected => "Disconnected"@,
    }
}

/// How the status line names a stage.
pub fn stage_text(stage: &ClientStage) -> (r: String)
    ensures
        r@ == stage_line(stage@),
{
    match stage {
        ClientStage::Connecting => "Connecting".to_owned(),
        ClientStage::SetUsername => "Entering Username".to_owned(),
        ClientStage::ConfirmUsername { confirmed_username } => {
            let mut r = "Confirming Username: ".to_owned();
            push_str(&mut r, confirmed_username.as_str());
            r
        },
        ClientStage::SelectRoom => "Selecting Room".to_owned(),
        ClientStage::JoiningRoom { room } => {
            let mut r = "Joining ".to_owned();
            push_str(&mut r, room.as_str());
            r
        },
        ClientStage::Chatting { room } => {
            let mut r = "Chatting in ".to_owned();
            push_str(&mut r, room.as_str());
            r
        },
        ClientStage::Disconnected => "Disconnected".to_owned(),
    }
}

/// The state the status line shows, each with its own color.
#[derive(Debug, Clone, Copy, PartialEq, Eq, Structural)]
pub enum Indicator {
    Connected,
    Disconnected,
    Connecting,
}

/// The state the status line shows: connected while the server has welcomed the client,
/// disconnected once the connection is lost, connecting otherwise.
pub open spec fn indicator_of(connected: bool, stage: StageView) -> Indicator {
    if connected {
        Indicator::Connected
    } else if stage is Disconnected {
        Indicator::Disconnected
    } else {
        Indicator::Connecting
    }
}

/// The word for an indicator.
pub open spec fn indicator_label(i: Indicator) -> Seq<char> {
    match i {
        Indicator::Connected => "Connected"@,
        Indicator::Disconnected => "Disconnected"@,
        Indicator::Connecting => "Connecting"@,
    }
}

/// The state the status line shows.
pub fn indicator(app: &App) -> (r: Indicator)
    ensures
        r == indicator_of(app.connected, app.stage@),
{
    if app.connected {
        Indicator::Connected
    } else {
        match app.stage {
            ClientStage::Disconnected => Indicator::Disconnected,
            _ => Indicator::Connecting,
        }
    }
}

/// The text of the status line after its dot.
pub fn status_text(app: &App) -> (r: String)
    ensures
        r@ == " "@ + indicator_label(indicator_of(app.connected, app.stage@)) + " · "@
            + stage_line(app.stage@),
{
    let label = match indicator(app) {
        Indicator::Connected => "Connected",
        Indicator::Disconnected => "Disconnected",
        Indicator::Connecting => "Connecting",
    };
    let mut r = " ".to_owned();
    push_str(&mut r, label);
    push_str(&mut r, " · ");
    let stage = stage_text(&app.stage);
    push_str(&mut r, stage.as_str());
    r
}

/// The hint that says how far the log is scrolled back: nothing at the bottom.
pub open spec fn scroll_hint_text(scroll: usize) -> Seq<char> {
    if scroll > 0 {
        decimal(scroll as nat) + " newer ↑↓"@
    } else {
        Seq::empty()
    }
}

/// The hint that says how far the log is scrolled back.
pub fn scroll_hint(scroll: usize) -> (r: String)
    ensures
        r@ == scroll_hint_text(scroll),
{
    if scroll > 0 {
        let mut r = String::new();
        push_decimal(&mut r, scroll as u64);
        push_str(&mut r, " newer ↑↓");
        r
    } else {
        String::new()
    }
}

/// Whether the input line shows a cursor: in the stages that take typed input.
pub open spec fn takes_input(stage: StageView) -> bool {
    ||| stage is SetUsername
    ||| stage is ConfirmUsername
    ||| stage is SelectRoom
    ||| stage is Chatting
}

/// Whether the input line shows a cursor.
pub fn shows_cursor(stage: &ClientStage) -> (r: bool)
    ensures
        r == takes_input(stage@),
{
    match stage {
        ClientStage::SetUsername => true,
        ClientStage::ConfirmUsername { .. } => true,
        ClientStage::SelectRoom => true,
        ClientStage::Chatting { .. } => true,
        _ => false,
    }
}

/// The columns a text takes on screen, as `UnicodeWidthStr::width` gives them.
pub uninterp spec fn text_width(s: Seq<char>) -> usize;

/// `UnicodeWidthStr::width` from unicode-width. Its result depends on the text alone
/// and is named `text_width`; that the empty text takes no column is stated, the width
/// tables and the rules for character sequences are not.
#[verifier::external_body]
fn str_width(s: &str) -> (r: usize)
    ensures
        r == text_width(s@),
        s@.len() == 0 ==> r == 0,
{
    unicode_width::UnicodeWidthStr::width(s)
}

/// The columns `s` takes on screen, cut to 16 bits as a `u16` cast cuts.
pub fn columns(s: &str) -> (r: u16)
    ensures
        r == text_width(s@) as u16,
{
    let w = str_width(s);
    w as u16
}

/// A sum of columns, held at the largest `u16` rather than wrapping.
pub open spec fn capped_u16(v: int) -> u16 {
    if v > u16::MAX {
        u16::MAX
    } else {
        v as u16
    }
}

/// The column of the cursor in the input line: after the prompt and the visible input,
/// from the line's first column `x`.
pub fn cursor_column(x: u16, prompt: &str, visible: &str) -> (r: u16)
    ensures
        r == capped_u16(
            capped_u16(x + (text_width(prompt@) as u16)) + (text_width(visible@) as u16),
        ),
{
    let prompt_columns = columns(prompt);
    let visible_columns = columns(visible);
    x.saturating_add(prompt_columns).saturating_add(visible_columns)
}

/// The narrowest terminal the screen is drawn in: as wide as the key hints, and at
/// least one column between the log's margins.
pub open spec fn min_width_of(hints: Seq<char>, margin_left: u16, margin_right: u16) -> u16 {
    let floor = margin_left + margin_right + 1;
    (if text_width(hints) >= floor {
        text_width(hints) as int
    } else {
        floor
    }) as u16
}

/// The narrowest terminal the screen is drawn in, for the key hints `hints` and the
/// log's margins.
pub fn min_terminal_width(hints: &str, margin_left: u16, margin_right: u16) -> (r: u16)
    ensures
        r == min_width_of(hints@, margin_left, margin_right),
{
    let floor: usize = margin_left as usize + margin_right as usize + 1;
    let w = str_width(hints);
    let widest = if w >= floor {
        w
    } else {
        floor
    };
    widest as u16
}

/// The tail of the input that the input line shows, in a line of `line_width` columns
/// after the prompt `prompt`, keeping one column for the cursor.
pub fn visible_input(input: &str, line_width: usize, prompt: &str) -> (r: String)
    ensures
        r@ == input@.subrange(input@.len() - r@.len(), input@.len() as int),
        is_trailing_start(
            cell_widths(input@),
            (if line_width >= text_width(prompt@) + 1 {
                line_width - text_width(prompt@) - 1
            } else {
                0
            }) as usize,
            (input@.len() - r@.len()) as nat,
        ),
{
    let prompt_width = str_width(prompt);
    let available = line_width.saturating_sub(prompt_width).saturating_sub(1);
    trailing_input(input, available)
}

/// Whether a terminal is too small for the screen.
pub fn terminal_too_small(width: u16, height: u16, min_width: u16) -> (r: bool)
    ensures
        r == (width < min_width || height < MIN_TERMINAL_HEIGHT),
{
    width < min_width || height < MIN_TERMINAL_HEIGHT
}

/// The notice shown in a terminal that is too small.
pub open spec fn too_small_text(width: u16, height: u16, min_width: u16) -> Seq<char> {
    "Terminal too small ("@ + decimal(width as nat) + "x"@ + decimal(height as nat)
        + ").\nResize to at least "@ + decimal(min_width as nat) + "x"@ + decimal(
        MIN_TERMINAL_HEIGHT as nat,
    ) + "."@
}

/// The notice shown in a terminal that is too small.
pub fn too_small_notice(width: u16, height: u16, min_width: u16) -> (r: String)
    ensures
        r@ == too_small_text(width, height, min_width),
{
    let mut r = "Terminal too small (".to_owned();
    push_decimal(&mut r, width as u64);
    push_str(&mut r, "x");
    push_decimal(&mut r, height as u64);
    push_str(&mut r, ").\nResize to at least ");
    push_decimal(&mut r, min_width as u64);
    push_str(&mut r, "x");
    push_decimal(&mut r, MIN_TERMINAL_HEIGHT as u64);
    push_str(&mut r, ".");
    r
}

/// The number of lines `text` takes when wrapped to `width` columns, as ratatui's
/// `Paragraph::line_count` counts them with wrapping that keeps whitespace.
pub uninterp spec fn wrapped_lines(text: Seq<char>, width: u16) -> usize;

/// `Paragraph::line_count` from ratatui, for a paragraph of `text` wrapped without
/// trimming. Its result depends on its arguments alone and is named `wrapped_lines`;
/// that it is 0 for a width of 0 is stated, the wrapping itself is not.
#[verifier::external_body]
fn wrapped_line_count(text: &str, width: u16) -> (r: usize)
    ensures
        r == wrapped_lines(text@, width),
        width == 0 ==> r == 0,
{
    ratatui::widgets::Paragraph::new(text).wrap(ratatui::widgets::Wrap { trim: false }).line_count(
        width,
    )
}

/// The whole log as one text, one entry per line.
pub open spec fn log_text(log: Seq<ChatEventView>) -> Seq<char> {
    join(log.map_values(|e: ChatEventView| event_line(e)), "\n"@)
}

/// The lines the entries of `events` take, each wrapped on its own.
pub open spec fn entry_lines(events: Seq<ChatEventView>, width: u16) -> nat
    decreases events.len(),
{
    if events.len() == 0 {
        0
    } else {
        entry_lines(events.drop_last(), width) + wrapped_lines(event_line(events.last()), width) as nat
    }
}

/// `n` newlines.
pub open spec fn newlines(n: nat) -> Seq<char> {
    Seq::new(n, |i: int| '\n')
}

/// `a - b`, or 0 when `b` is larger.
pub open spec fn minus(a: int, b: int) -> int {
    if a >= b {
        a - b
    } else {
        0
    }
}

/// The smaller of two numbers.
pub open spec fn lesser(a: int, b: int) -> int {
    if a <= b {
        a
    } else {
        b
    }
}

fn join_log(messages: &Vec<ChatEvent>) -> (r: String)
    ensures
        r@ == log_text(log_view(messages@)),
{
    let mut lines: Vec<String> = Vec::new();
    let mut i: usize = 0;
    while i < messages.len()
        invariant
            i <= messages.len(),
            crate::text::views(lines@) == log_view(messages@).map_values(
                |e: ChatEventView| event_line(e),
            ).take(i as int),
        decreases messages.len() - i,
    {
        let line = event_text(&messages[i]);
        let ghost before = lines@;
        lines.push(line);
        proof {
            let all = log_view(messages@).map_values(|e: ChatEventView| event_line(e));
            assert(log_view(messages@).len() == messages@.len());
            assert(all[i as int] == event_line(messages@[i as int]@));
            assert(lines@ == before.push(line));
            assert(crate::text::views(lines@) =~= crate::text::views(before).push(line@));
        }
        assert(crate::text::views(lines@) =~= log_view(messages@).map_values(
            |e: ChatEventView| event_line(e),
        ).take(i + 1));
        i += 1;
    }
    assert(crate::text::views(lines@) =~= log_view(messages@).map_values(
        |e: ChatEventView| event_line(e),
    ));
    crate::text::join_strings(&lines, "\n")
}

fn new_entry_lines(messages: &Vec<ChatEvent>, count: usize, width: u16) -> (r: usize)
    requires
        count <= messages.len(),
    ensures
        r == lesser(
            entry_lines(log_view(messages@).skip(messages.len() - count), width) as int,
            usize::MAX as int,
        ),
{
    let mut total: usize = 0;
    let mut i: usize = messages.len() - count;
    let ghost from = (messages.len() - count) as int;
    while i < messages.len()
        invariant
            count <= messages.len(),
            messages.len() - count <= i <= messages.len(),
            from == messages.len() - count,
            total == lesser(
                entry_lines(log_view(messages@).subrange(from, i as int), width) as int,
                usize::MAX as int,
            ),
        decreases messages.len() - i,
    {
        let line = event_text(&messages[i]);
        let lines = wrapped_line_count(line.as_str(), width);
        proof {
            assert(log_view(messages@).len() == messages@.len());
            let s = log_view(messages@).subrange(from, i + 1);
            assert(s.drop_last() =~= log_view(messages@).subrange(from, i as int));
            assert(s.last() == messages@[i as int]@);
        }
        total = total.saturating_add(lines);
        i += 1;
    }
    assert(log_view(messages@).subrange(from, messages.len() as int) =~= log_view(messages@).skip(
        from,
    ));
    total
}

/// Where the message log stands after a refresh.
#[derive(Debug, Clone, Copy, PartialEq, Eq, Structural)]
pub struct ScrollState {
    /// Blank lines above the log, so that a short log sits at the bottom.
    pub leading: usize,
    /// The furthest the log can be scrolled back.
    pub max_scroll: usize,
    /// How far the log is scrolled back from the bottom, in lines.
    pub scroll: usize,
    /// How many lines from the top the log area starts.
    pub offset: u16,
}

/// Settles the scroll position of a log of `content_lines` lines in an area of
/// `visible_height` rows. `scroll` is the position before, `was_at_top` whether the view
/// was at the very top, and `pushed_lines` the lines that new entries take when they
/// arrived while the user was scrolled back.
pub fn settle_scroll(
    content_lines: usize,
    visible_height: usize,
    scroll: usize,
    was_at_top: bool,
    pushed_lines: Option<usize>,
) -> (r: ScrollState)
    ensures
        ({
            let leading = minus(visible_height as int, content_lines as int);
            let max_scroll = minus(content_lines + leading, visible_height as int);
            let pushed_back = match pushed_lines {
                Some(n) => lesser(scroll + n, max_scroll),
                None => scroll as int,
            };
            let settled = if was_at_top {
                max_scroll
            } else {
                pushed_back
            };
            &&& r.leading == leading
            &&& r.max_scroll == max_scroll
            &&& r.scroll == lesser(settled, max_scroll)
            &&& r.offset == lesser(max_scroll - r.scroll, u16::MAX as int)
        }),
{
    let leading = visible_height.saturating_sub(content_lines);
    let total_lines = if content_lines >= visible_height {
        content_lines
    } else {
        visible_height
    };
    let max_scroll = total_lines.saturating_sub(visible_height);
    let mut position = scroll;
    match pushed_lines {
        Some(n) => {
            let pushed = position.saturating_add(n);
            position = if pushed < max_scroll {
                pushed
            } else {
                max_scroll
            };
        },
        None => {},
    }
    if was_at_top {
        position = max_scroll;
    }
    if position > max_scroll {
        position = max_scroll;
    }
    let back = max_scroll - position;
    let offset: u16 = if back > 65535 {
        65535
    } else {
        back as u16
    };
    ScrollState { leading, max_scroll, scroll: position, offset }
}

/// Brings the cached rendering of the message log up to date for a log area of
/// `visible_height` rows and `width` columns, keeps the scroll position where the user
/// left it, and returns how many lines from the top the log area starts.
///
/// The text is rebuilt when entries were pushed or the width changed; it is padded
/// with blank lines at the top so that a short log sits at the bottom of the area.
/// The scroll position counts lines back from the bottom. While the user is scrolled
/// back, new entries push the position back by the lines they take, so that the view
/// stays on the same entries; a view at the very top stays at the top.
pub fn refresh_message_view(app: &mut App, visible_height: usize, width: u16) -> (offset: u16)
    ensures
        ({
            let stale = old(app).cached_generation != old(app).total_messages_pushed || old(
                app,
            ).cached_width != width;
            let content = final(app).cached_content_lines as int;
            let leading = minus(visible_height as int, content);
            let max_scroll = minus(content + leading, visible_height as int);
            let new_count = lesser(
                minus(old(app).total_messages_pushed as int, old(app).cached_generation as int),
                old(app).messages.len() as int,
            );
            let was_at_top = old(app).max_message_scroll > 0 && old(app).message_scroll >= old(
                app,
            ).max_message_scroll;
            let pushed_back = if new_count > 0 && old(app).message_scroll > 0 {
                lesser(
                    old(app).message_scroll + entry_lines(
                        old(app).log().skip(old(app).messages.len() - new_count),
                        width,
                    ),
                    max_scroll,
                )
            } else {
                old(app).message_scroll as int
            };
            let scroll = if was_at_top {
                max_scroll
            } else {
                pushed_back
            };
            &&& final(app).cached_full_text@ == if stale {
                log_text(old(app).log())
            } else {
                old(app).cached_full_text@
            }
            &&& content == if stale {
                wrapped_lines(log_text(old(app).log()), width) as int
            } else {
                old(app).cached_content_lines as int
            }
            &&& final(app).cached_width == width
            &&& final(app).cached_leading_padding == leading
            &&& final(app).cached_padded_text@ == if stale || old(app).cached_leading_padding
                != leading {
                newlines(leading as nat) + final(app).cached_full_text@
            } else {
                old(app).cached_padded_text@
            }
            &&& final(app).max_message_scroll == max_scroll
            &&& final(app).message_scroll == lesser(scroll, max_scroll)
            &&& final(app).cached_generation == old(app).total_messages_pushed
            &&& offset == lesser(max_scroll - final(app).message_scroll, u16::MAX as int)
        }),
        final(app).messages == old(app).messages,
        final(app).input == old(app).input,
        final(app).stage == old(app).stage,
        final(app).connected == old(app).connected,
        final(app).theme == old(app).theme,
        final(app).total_messages_pushed == old(app).total_messages_pushed,
        final(app).message_scroll <= final(app).max_message_scroll,
{
    let was_at_top = app.max_message_scroll > 0 && app.message_scroll >= app.max_message_scroll;
    let behind = app.total_messages_pushed.saturating_sub(app.cached_generation);
    let new_count = if behind < app.messages.len() {
        behind
    } else {
        app.messages.len()
    };
    let stale = app.cached_generation != app.total_messages_pushed || app.cached_width != width;
    if stale {
        app.cached_full_text = join_log(&app.messages);
        app.cached_content_lines = wrapped_line_count(app.cached_full_text.as_str(), width);
        app.cached_width = width;
    }
    let content = app.cached_content_lines;
    let leading = visible_height.saturating_sub(content);
    if stale || app.cached_leading_padding != leading {
        let mut padded = repeat_char('\n', leading);
        push_str(&mut padded, app.cached_full_text.as_str());
        app.cached_padded_text = padded;
        app.cached_leading_padding = leading;
    }
    let pushed_lines = if new_count > 0 && app.message_scroll > 0 {
        Some(new_entry_lines(&app.messages, new_count, width))
    } else {
        None
    };
    let settled = settle_scroll(content, visible_height, app.message_scroll, was_at_top, pushed_lines);
    app.max_message_scroll = settled.max_scroll;
    app.message_scroll = settled.scroll;
    app.cached_generation = app.total_messages_pushed;
    settled.offset
}

} // verus!
