//! One executed shell command and the two texts the picker shows for it: a
//! one-line label and a multi-line detail preview.
use crate::clock::{
    hh_mm, hour_minute_pattern, is_current_day, on_current_day, opt_view, representable,
    strftime, strftime_of, zoned_secs, RenderContext,
};
use crate::text::{dec_int, i64_text, is_digit, lemma_dec_int_chars, pad_right, pad_text, spaces};
use vstd::prelude::*;

verus! {

/// Marks a value that was not recorded.
pub const NONE_TOKEN: &'static str = "\x1b[37;1m<NONE>\x1b[0m";

pub open spec fn none_token() -> Seq<char> {
    NONE_TOKEN@
}

/// Width of the date column of a label.
pub const FORMAT_DATE_LENGTH: usize = 10;

/// Where the command starts in a label: after the date column and a space.
pub const COMMAND_START: usize = FORMAT_DATE_LENGTH + 1;

/// Width of the name column of a preview row.
pub const PREVIEW_NAME_LENGTH: usize = 20;

/// Text that humantime writes for a duration of `secs` seconds.
pub uninterp spec fn humantime_text(secs: nat) -> Seq<char>;

/// The characters humantime writes: digits, lower-case unit names, spaces.
pub open spec fn is_duration_char(c: char) -> bool {
    ('0' <= c && c <= '9') || ('a' <= c && c <= 'z') || c == ' '
}

/// Relies on humantime's `format_duration`: a duration is written as
/// space-separated items such as `2h 37m`, each a number and a unit name, and
/// `0s` for nothing.
#[verifier::external_body]
fn human_duration(secs: u64) -> (r: String)
    ensures
        r@ == humantime_text(secs as nat),
        forall|i: int| 0 <= i < r@.len() ==> is_duration_char(#[trigger] r@[i]),
{
    humantime::format_duration(std::time::Duration::from_secs(secs)).to_string()
}

/// One executed command with what the history store knows of it.
pub struct History {
    pub id: i64,
    pub cmd: String,
    pub start: u64,
    pub exit_status: Option<i64>,
    pub duration: Option<i64>,
    pub count: i64,
    pub session: i64,
    pub host: String,
    pub dir: String,
    /// The span of the label that the picker highlights.
    pub searchrange: [(usize, usize); 1],
}

/// A text, or the unknown marker in its absence.
pub open spec fn or_none(o: Option<Seq<char>>) -> Seq<char> {
    match o {
        Some(s) => s,
        None => none_token(),
    }
}

/// An optional integer in decimal, or the unknown marker.
pub open spec fn optional_int_text(x: Option<i64>) -> Seq<char> {
    match x {
        Some(v) => dec_int(v as int),
        None => none_token(),
    }
}

/// An optional duration in seconds as humantime writes it, or the unknown marker.
pub open spec fn duration_text(d: Option<i64>) -> Seq<char> {
    match d {
        Some(v) => humantime_text((v as u64) as nat),
        None => none_token(),
    }
}

/// The date column: `HH:MM` for a start on the current day, the context's date
/// pattern for an earlier one, pattern and time together in the full form, and
/// the unknown marker where the start cannot be formatted.
pub open spec fn date_text(h: History, full: bool, ctx: RenderContext) -> Seq<char> {
    let secs = h.start as int + ctx.utc_offset as int;
    if !representable(secs) {
        none_token()
    } else if full {
        or_none(strftime_of(secs, ctx.date_format@ + " %H:%M"@))
    } else if on_current_day(h.start as int, ctx.now as int, ctx.utc_offset as int) {
        hh_mm(secs)
    } else {
        or_none(strftime_of(secs, ctx.date_format@))
    }
}

/// The label: the short date padded to its column, a space, the command.
pub open spec fn label_text(h: History, ctx: RenderContext) -> Seq<char> {
    pad_right(date_text(h, false, ctx), FORMAT_DATE_LENGTH as nat) + seq![' '] + h.cmd@
}

/// The command as the highlighter returned it, or as it was.
pub open spec fn command_text(cmd: Seq<char>, highlighted: Option<Seq<char>>) -> Seq<char> {
    match highlighted {
        Some(t) => t,
        None => cmd,
    }
}

/// A preview row: the bold name padded to its column, then the value.
pub open spec fn row(name: Seq<char>, value: Seq<char>) -> Seq<char> {
    "\x1b[1m"@ + pad_right(name, PREVIEW_NAME_LENGTH as nat) + "\x1b[0m"@ + value + "\n"@
}

/// The detail preview of a record.
pub open spec fn preview_text(h: History, ctx: RenderContext, highlighted: Option<Seq<char>>) -> Seq<char> {
    "\x1b[1mDetails for "@ + dec_int(h.id as int) + "\x1b[0m\n\n"@
        + row("Runtime"@, duration_text(h.duration))
        + row("Host"@, h.host@)
        + row("Executed"@, dec_int(h.count as int))
        + row("Directory"@, h.dir@)
        + row("Exit Status"@, optional_int_text(h.exit_status))
        + row("Session"@, dec_int(h.session as int))
        + row("Start Time"@, date_text(h, false, ctx))
        + "\x1b[1mCommand\x1b[0m\n\n"@
        + command_text(h.cmd@, highlighted)
}

fn or_none_string(o: Option<String>) -> (r: String)
    ensures
        r@ == or_none(opt_view(o)),
{
    match o {
        Some(s) => s,
        None => String::from_str(NONE_TOKEN),
    }
}

fn push_row(info: &mut String, name: &str, value: &str)
    ensures
        final(info)@ == old(info)@ + row(name@, value@),
{
    let padded = pad_text(name, PREVIEW_NAME_LENGTH);
    info.append("\x1b[1m");
    info.append(padded.as_str());
    info.append("\x1b[0m");
    info.append(value);
    info.append("\n");
    assert(final(info)@ =~= old(info)@ + row(name@, value@));
}

impl History {
    pub fn command(&self) -> (r: &String)
        ensures
            r@ == self.cmd@,
    {
        &self.cmd
    }

    pub fn session(&self) -> (r: String)
        ensures
            r@ == dec_int(self.session as int),
    {
        i64_text(self.session)
    }

    pub fn dir(&self) -> (r: String)
        ensures
            r@ == self.dir@,
    {
        self.dir.clone()
    }

    /// The start time: short (`full == false`) or with date and time.
    pub fn format_date(&self, full: bool, ctx: &RenderContext) -> (r: String)
        requires
            ctx.wf(),
        ensures
            r@ == date_text(*self, full, *ctx),
    {
        match zoned_secs(self.start, ctx) {
            None => String::from_str(NONE_TOKEN),
            Some(secs) => {
                if full {
                    let mut pattern = ctx.date_format.clone();
                    pattern.append(" %H:%M");
                    or_none_string(strftime(secs, pattern.as_str()))
                } else if is_current_day(self.start, ctx) {
                    proof {
                        reveal_strlit("%H:%M");
                    }
                    assert("%H:%M"@ =~= hour_minute_pattern());
                    or_none_string(strftime(secs, "%H:%M"))
                } else {
                    or_none_string(strftime(secs, ctx.date_format.as_str()))
                }
            },
        }
    }

    /// An optional integer in decimal, or the unknown marker.
    pub fn format_or_none(x: Option<i64>) -> (r: String)
        ensures
            r@ == optional_int_text(x),
    {
        match x {
            Some(v) => i64_text(v),
            None => String::from_str(NONE_TOKEN),
        }
    }

    /// The run time in human-readable form, or the unknown marker. A recorded
    /// duration is written in digits, lower-case unit names and spaces only,
    /// so neither the marker nor its `<NONE>` text occurs in it.
    pub fn format_duration(&self) -> (r: String)
        ensures
            r@ == duration_text(self.duration),
            self.duration is Some ==> forall|i: int| 0 <= i < r@.len() ==> is_duration_char(#[trigger] r@[i]),
            self.duration is Some ==> !occurs_in(none_token(), r@),
    {
        match self.duration {
            Some(v) => {
                let r = human_duration(v as u64);
                proof {
                    assert forall|i: int| 0 <= i < r@.len() implies #[trigger] r@[i] != '<' by {
                        assert(is_duration_char(r@[i]));
                    }
                    lemma_marker_needs_angle(r@);
                }
                r
            },
            None => History::format_or_none(None),
        }
    }

    /// The command as shown in the preview: what the highlighter returned when
    /// it succeeded, else the command itself.
    pub fn highlight_command(&self, highlighted: Option<String>) -> (r: String)
        ensures
            r@ == command_text(self.cmd@, opt_view(highlighted)),
    {
        match highlighted {
            Some(t) => t,
            None => self.cmd.clone(),
        }
    }

    /// The one-line label the picker lists and matches against.
    pub fn text(&self, ctx: &RenderContext) -> (r: String)
        requires
            ctx.wf(),
        ensures
            r@ == label_text(*self, *ctx),
    {
        let date = self.format_date(false, ctx);
        let mut r = pad_text(date.as_str(), FORMAT_DATE_LENGTH);
        proof {
            reveal_strlit(" ");
        }
        r.append(" ");
        r.append(self.cmd.as_str());
        assert(r@ =~= label_text(*self, *ctx));
        r
    }

    /// The detail preview; `highlighted` is the highlighter's output, `None`
    /// where it was not configured or failed.
    pub fn preview(&self, ctx: &RenderContext, highlighted: Option<String>) -> (r: String)
        requires
            ctx.wf(),
        ensures
            r@ == preview_text(*self, *ctx, opt_view(highlighted)),
    {
        let mut info = String::from_str("\x1b[1mDetails for ");
        let id = i64_text(self.id);
        info.append(id.as_str());
        info.append("\x1b[0m\n\n");
        let runtime = self.format_duration();
        push_row(&mut info, "Runtime", runtime.as_str());
        push_row(&mut info, "Host", self.host.as_str());
        let count = i64_text(self.count);
        push_row(&mut info, "Executed", count.as_str());
        push_row(&mut info, "Directory", self.dir.as_str());
        let status = History::format_or_none(self.exit_status);
        push_row(&mut info, "Exit Status", status.as_str());
        let session = i64_text(self.session);
        push_row(&mut info, "Session", session.as_str());
        let started = self.format_date(false, ctx);
        push_row(&mut info, "Start Time", started.as_str());
        info.append("\x1b[1mCommand\x1b[0m\n\n");
        let command = self.highlight_command(highlighted);
        info.append(command.as_str());
        info
    }

    /// The spans of the label to highlight: always the record's one span.
    pub fn get_matching_ranges(&self) -> (r: Option<&[(usize, usize)]>)
        ensures
            r matches Some(s) && s@ == self.searchrange@,
            r matches Some(s) && s@.len() == 1,
    {
        Some(self.searchrange.as_slice())
    }
}

/// `needle` stands somewhere in `hay`.
pub open spec fn occurs_in(needle: Seq<char>, hay: Seq<char>) -> bool {
    exists|i: int| 0 <= i && i + needle.len() <= hay.len() && #[trigger] hay.subrange(i, i + needle.len()) == needle
}

/// A text without `<` cannot hold the unknown marker.
proof fn lemma_marker_needs_angle(hay: Seq<char>)
    requires
        forall|i: int| 0 <= i < hay.len() ==> #[trigger] hay[i] != '<',
    ensures
        !occurs_in(none_token(), hay),
{
    reveal_strlit("\x1b[37;1m<NONE>\x1b[0m");
    assert(none_token()[7] == '<');
    if occurs_in(none_token(), hay) {
        let i = choose|i: int| 0 <= i && i + none_token().len() <= hay.len() && #[trigger] hay.subrange(i, i + none_token().len()) == none_token();
        assert(hay.subrange(i, i + none_token().len())[7] == hay[i + 7]);
    }
}

/// Rendering an optional integer or duration is total and fixed: an absent
/// value always gives the unknown marker; a present one gives its decimal (or
/// humantime) text, in which the marker never occurs.
pub proof fn lemma_optional_values_render(x: Option<i64>)
    ensures
        x is None ==> optional_int_text(x) == none_token() && duration_text(x) == none_token(),
        x matches Some(v) ==> optional_int_text(x) == dec_int(v as int)
            && !occurs_in(none_token(), optional_int_text(x)),
        x matches Some(v) ==> duration_text(x) == humantime_text((v as u64) as nat),
{
    if let Some(v) = x {
        lemma_dec_int_chars(v as int);
        let t = dec_int(v as int);
        assert forall|i: int| 0 <= i < t.len() implies #[trigger] t[i] != '<' by {
            assert(is_digit(t[i]) || t[i] == '-');
        }
        lemma_marker_needs_angle(t);
    }
}

/// A record that starts on the current day is labelled `HH:MM`, padded to the
/// date column; one that starts earlier is labelled with the context's date
/// pattern. Midnight belongs to the current day.
pub proof fn lemma_label_date_prefix(h: History, ctx: RenderContext)
    requires
        ctx.wf(),
        representable(h.start as int + ctx.utc_offset as int),
    ensures
        on_current_day(h.start as int, ctx.now as int, ctx.utc_offset as int) ==> label_text(h, ctx)
            == hh_mm(h.start as int + ctx.utc_offset as int) + spaces(5) + seq![' '] + h.cmd@,
        !on_current_day(h.start as int, ctx.now as int, ctx.utc_offset as int) ==> (strftime_of(
            h.start as int + ctx.utc_offset as int,
            ctx.date_format@,
        ) matches Some(t) ==> t.is_prefix_of(label_text(h, ctx))),
{
    let secs = h.start as int + ctx.utc_offset as int;
    if on_current_day(h.start as int, ctx.now as int, ctx.utc_offset as int) {
        assert(hh_mm(secs).len() == 5);
        assert(label_text(h, ctx) =~= hh_mm(secs) + spaces(5) + seq![' '] + h.cmd@);
    } else if let Some(t) = strftime_of(secs, ctx.date_format@) {
        let l = label_text(h, ctx);
        assert(date_text(h, false, ctx) == t);
        assert forall|i: int| 0 <= i < t.len() implies #[trigger] l[i] == t[i] by {
            if t.len() < FORMAT_DATE_LENGTH {
                assert(pad_right(t, FORMAT_DATE_LENGTH as nat)[i] == t[i]);
            }
        }
    }
}

/// Whatever the record and context, when highlighting fails the preview ends
/// with the command exactly as recorded.
pub proof fn lemma_preview_ends_with_command(h: History, ctx: RenderContext)
    ensures
        h.cmd@.is_suffix_of(preview_text(h, ctx, None)),
{
    let p = preview_text(h, ctx, None);
    let k = p.len() - h.cmd@.len();
    assert forall|i: int| 0 <= i < h.cmd@.len() implies #[trigger] p[k + i] == h.cmd@[i] by {}
    assert(p.subrange(k, p.len() as int) =~= h.cmd@);
}

} // verus!
