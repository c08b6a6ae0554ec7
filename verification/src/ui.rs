//! The text of the dashboard's panels: the project list, its title, the
//! details of the selected project and the messages shown in their place.
use vstd::prelude::*;
use vstd::string::*;
use crate::app::{App, AppView, InputMode};
use crate::project::{changes_view, FileStatusType, Project};
use crate::style::{lines_view, spans_view, Color, Line, LineView, Span, SpanView, Style, BOLD, ITALIC, UNDERLINED};
use crate::text::{decimal, decimal_string, push_decimal, trim, trimmed};
use vstd::arithmetic::div_mod::lemma_div_is_ordered;
use crate::theme::{spinner_frame, DUR_FAST_TICKS, SPINNER_FRAME_COUNT};

verus! {

/// The directory whose subdirectories are scanned for projects.
pub const MASTER_DIR: &'static str = "K:/source";

/// The unit in which an age of `diff` seconds is told: 0 for "just now"
/// (under a minute, or in the future), then minutes, hours, days, months
/// of 30 days and years of 365 days.
pub open spec fn time_ago_unit(diff: int) -> nat {
    if diff < 60 {
        0
    } else if diff < 3600 {
        1
    } else if diff < 86400 {
        2
    } else if diff < 2592000 {
        3
    } else if diff < 31536000 {
        4
    } else {
        5
    }
}

/// How many whole units of its unit an age of `diff` seconds is; 0 for
/// "just now".
pub open spec fn time_ago_count(diff: int) -> nat {
    let unit = time_ago_unit(diff);
    if unit == 0 {
        0
    } else if unit == 1 {
        (diff / 60) as nat
    } else if unit == 2 {
        (diff / 3600) as nat
    } else if unit == 3 {
        (diff / 86400) as nat
    } else if unit == 4 {
        (diff / 2592000) as nat
    } else {
        (diff / 31536000) as nat
    }
}

/// The words for `count` of a unit.
pub open spec fn time_ago_words(unit: nat, count: nat) -> Seq<char> {
    if unit == 0 {
        "just now"@
    } else if unit == 1 {
        decimal(count) + " minutes ago"@
    } else if unit == 2 {
        decimal(count) + " hours ago"@
    } else if unit == 3 {
        decimal(count) + " days ago"@
    } else if unit == 4 {
        decimal(count) + " months ago"@
    } else {
        decimal(count) + " years ago"@
    }
}

/// How long ago a commit was made, as the dashboard words it. A time of 0
/// means that there is no commit. The difference to now wraps around as
/// 64-bit arithmetic does.
pub open spec fn time_ago_text(timestamp: i64, now: i64) -> Seq<char> {
    let diff = now.wrapping_sub(timestamp) as int;
    if timestamp == 0 {
        "Unknown"@
    } else {
        time_ago_words(time_ago_unit(diff), time_ago_count(diff))
    }
}

/// An older commit never reads as more recent: when the differences to
/// `now` do not overflow, the commit at `t1`, made no later than the one at
/// `t2`, is told in a larger unit, or in the same unit with a count at
/// least as large.
pub proof fn lemma_older_never_reads_newer(t1: i64, t2: i64, now: i64)
    requires
        t1 != 0,
        t2 != 0,
        t1 <= t2,
        i64::MIN <= now - t1 <= i64::MAX,
        i64::MIN <= now - t2 <= i64::MAX,
    ensures
        ({
            let d1 = now.wrapping_sub(t1) as int;
            let d2 = now.wrapping_sub(t2) as int;
            &&& time_ago_text(t1, now) == time_ago_words(time_ago_unit(d1), time_ago_count(d1))
            &&& time_ago_text(t2, now) == time_ago_words(time_ago_unit(d2), time_ago_count(d2))
            &&& time_ago_unit(d2) <= time_ago_unit(d1)
            &&& time_ago_unit(d2) == time_ago_unit(d1) ==> time_ago_count(d2) <= time_ago_count(d1)
        }),
{
    let d1 = now - t1;
    let d2 = now - t2;
    assert(now.wrapping_sub(t1) as int == d1);
    assert(now.wrapping_sub(t2) as int == d2);
    lemma_div_is_ordered(d2, d1, 60);
    lemma_div_is_ordered(d2, d1, 3600);
    lemma_div_is_ordered(d2, d1, 86400);
    lemma_div_is_ordered(d2, d1, 2592000);
    lemma_div_is_ordered(d2, d1, 31536000);
}

/// `decimal(n)` followed by `suffix`.
fn number_then(n: i64, suffix: &str) -> (s: String)
    requires
        n >= 0,
    ensures
        s@ == decimal(n as nat) + suffix@,
{
    let mut s = String::new();
    push_decimal(&mut s, n as u64);
    s.append(suffix);
    s
}

/// How long before `now` (seconds since the epoch) a commit made at
/// `timestamp` was.
pub fn format_time_ago_at(timestamp: i64, now: i64) -> (s: String)
    ensures
        s@ == time_ago_text(timestamp, now),
{
    if timestamp == 0 {
        return String::from_str("Unknown");
    }
    let diff = now.wrapping_sub(timestamp);
    if diff < 60 {
        String::from_str("just now")
    } else if diff < 3600 {
        number_then(diff / 60, " minutes ago")
    } else if diff < 86400 {
        number_then(diff / 3600, " hours ago")
    } else if diff < 2592000 {
        number_then(diff / 86400, " days ago")
    } else if diff < 31536000 {
        number_then(diff / 2592000, " months ago")
    } else {
        number_then(diff / 31536000, " years ago")
    }
}

/// The seconds since the Unix epoch on the system clock.
/// Calls `SystemTime::now`, measured from `UNIX_EPOCH` in whole seconds
/// (`Duration::as_secs`), 0 where the clock is before the epoch. Nothing is
/// stated of the value: it is the time.
#[verifier::external_body]
fn unix_time_secs() -> u64 {
    std::time::SystemTime::now().duration_since(std::time::UNIX_EPOCH).unwrap_or_default().as_secs()
}

/// How long ago a commit made at `timestamp` was, by the system clock.
pub fn format_time_ago(timestamp: i64) -> (s: String)
    ensures
        exists|now: i64| s@ == time_ago_text(timestamp, now),
        timestamp == 0 ==> s@ == "Unknown"@,
{
    let now = unix_time_secs() as i64;
    format_time_ago_at(timestamp, now)
}

/// The arrow that tells how a branch stands to its upstream: both ways,
/// ahead, behind, or nothing when in sync.
#[verifier::allow_in_spec]
pub fn sync_symbol(ahead: usize, behind: usize) -> &'static str
    returns
        (if ahead > 0 && behind > 0 {
            " ⇅"
        } else if ahead > 0 {
            " ↑"
        } else if behind > 0 {
            " ↓"
        } else {
            ""
        }),
{
    if ahead > 0 && behind > 0 {
        " ⇅"
    } else if ahead > 0 {
        " ↑"
    } else if behind > 0 {
        " ↓"
    } else {
        ""
    }
}

/// The line of a project in the list: a red cross when dirty or a green
/// tick when clean, the name, and the arrow of its upstream in light blue.
pub open spec fn list_line_view(p: Project) -> LineView {
    seq![
        (if p.is_dirty { "✗ "@ } else { "✓ "@ }, Style::new().fg(if p.is_dirty { Color::Red } else { Color::Green })),
        (p.name@, Style::new()),
        (sync_symbol(p.ahead, p.behind)@, Style::new().fg(Color::LightBlue)),
    ]
}

/// The line of a project in the list shows its state by the first mark, its
/// name in the middle, and last the arrow of its upstream in light blue,
/// which depends on the commits ahead and behind alone, whatever the state.
pub proof fn lemma_list_line_parts(p: Project)
    ensures
        list_line_view(p).len() == 3,
        list_line_view(p)[0].0 == if p.is_dirty { "✗ "@ } else { "✓ "@ },
        list_line_view(p)[1].0 == p.name@,
        list_line_view(p)[2].1 == Style::new().fg(Color::LightBlue),
        p.ahead > 0 && p.behind > 0 ==> list_line_view(p)[2].0 == " ⇅"@,
        p.ahead > 0 && p.behind == 0 ==> list_line_view(p)[2].0 == " ↑"@,
        p.ahead == 0 && p.behind > 0 ==> list_line_view(p)[2].0 == " ↓"@,
        p.ahead == 0 && p.behind == 0 ==> list_line_view(p)[2].0 == ""@,
{
}

/// The line of a project in the list.
pub fn project_list_line(p: &Project) -> (l: Line)
    ensures
        l@ == list_line_view(*p),
        l@.len() == 3 && l@[2] == (sync_symbol(p.ahead, p.behind)@, Style::new().fg(Color::LightBlue)),
{
    let prefix = if p.is_dirty { "✗ " } else { "✓ " };
    let color = if p.is_dirty { Color::Red } else { Color::Green };
    let v = vec![
        Span::styled(prefix, Style::new().fg(color)),
        Span::styled(p.name.as_str(), Style::new()),
        Span::styled(sync_symbol(p.ahead, p.behind), Style::new().fg(Color::LightBlue)),
    ];
    let l = Line::from_spans(v);
    assert(l@ =~= list_line_view(*p));
    l
}

/// The title of the project list: the spinner and `Scanning...` while a
/// scan is under way, the keys otherwise.
pub open spec fn title_text(is_loading: bool, spinner_tick: u8) -> Seq<char> {
    if is_loading {
        " Projects "@ + spinner_frame(((spinner_tick / DUR_FAST_TICKS) as usize) % SPINNER_FRAME_COUNT)@
            + " Scanning... "@
    } else {
        " Projects (q:quit, r:refresh, c:create) "@
    }
}

/// The title of the project list.
pub fn projects_title(is_loading: bool, spinner_tick: u8) -> (t: String)
    ensures
        t@ == title_text(is_loading, spinner_tick),
{
    if is_loading {
        let frame = spinner_frame((spinner_tick / DUR_FAST_TICKS) as usize % SPINNER_FRAME_COUNT);
        let mut t = String::from_str(" Projects ");
        t.append(frame);
        t.append(" Scanning... ");
        t
    } else {
        String::from_str(" Projects (q:quit, r:refresh, c:create) ")
    }
}

/// The style of the title of the project list: yellow while scanning,
/// white otherwise.
#[verifier::allow_in_spec]
pub fn title_style(is_loading: bool) -> Style
    returns
        Style::new().fg(if is_loading { Color::Yellow } else { Color::White }),
{
    Style::new().fg(if is_loading { Color::Yellow } else { Color::White })
}

/// The text of the panel in which a new project is named.
pub fn input_text(input_buffer: &str) -> (t: String)
    ensures
        t@ == "Enter new project name: "@ + input_buffer@,
{
    let mut t = String::from_str("Enter new project name: ");
    t.append(input_buffer);
    t
}

/// The message of the detail panel when no project is shown.
pub open spec fn empty_message_text(is_loading: bool, no_projects: bool) -> Seq<char> {
    if is_loading {
        "Scanning master directory for projects..."@
    } else if no_projects {
        "No projects found in "@ + MASTER_DIR@ + ". Try 'r' to refresh."@
    } else {
        "Select a project to see details."@
    }
}

/// The message of the detail panel when no project is shown: a scan is
/// under way, no project was found, or none is selected.
pub fn empty_message(is_loading: bool, no_projects: bool) -> (t: String)
    ensures
        t@ == empty_message_text(is_loading, no_projects),
{
    if is_loading {
        String::from_str("Scanning master directory for projects...")
    } else if no_projects {
        let mut t = String::from_str("No projects found in ");
        t.append(MASTER_DIR);
        t.append(". Try 'r' to refresh.");
        t
    } else {
        String::from_str("Select a project to see details.")
    }
}

/// A bold heading.
pub open spec fn bold() -> Style {
    Style::new().add_modifier(BOLD)
}

/// The branch line: the branch in bold magenta, then how it stands to its
/// upstream, `(Ahead: a, Behind: b)` with either part left out when 0, or
/// `(Synced with remote)`.
pub open spec fn branch_line_view(p: Project) -> LineView {
    let head = seq![("Branch:  "@, bold()), (p.current_branch@, Style::new().fg(Color::Magenta).add_modifier(BOLD))];
    if p.ahead > 0 || p.behind > 0 {
        head + seq![(" ("@, Style::new())]
            + (if p.ahead > 0 { seq![("Ahead: "@ + decimal(p.ahead as nat), Style::new().fg(Color::Green))] } else { seq![] })
            + (if p.ahead > 0 && p.behind > 0 { seq![(", "@, Style::new())] } else { seq![] })
            + (if p.behind > 0 { seq![("Behind: "@ + decimal(p.behind as nat), Style::new().fg(Color::Red))] } else { seq![] })
            + seq![(")"@, Style::new())]
    } else {
        head + seq![(" (Synced with remote)"@, Style::new().fg(Color::DarkGray))]
    }
}

/// `label` followed by the decimal `n`.
fn label_number(label: &str, n: usize) -> (s: String)
    ensures
        s@ == label@ + decimal(n as nat),
{
    let mut s = String::from_str(label);
    push_decimal(&mut s, n as u64);
    s
}

/// The branch line of the detail panel.
pub fn branch_line(p: &Project) -> (l: Line)
    ensures
        l@ == branch_line_view(*p),
{
    let mut spans = vec![
        Span::styled("Branch:  ", Style::new().add_modifier(BOLD)),
        Span::styled(p.current_branch.as_str(), Style::new().fg(Color::Magenta).add_modifier(BOLD)),
    ];
    if p.ahead > 0 || p.behind > 0 {
        spans.push(Span::raw(" ("));
        if p.ahead > 0 {
            spans.push(Span::styled_string(label_number("Ahead: ", p.ahead), Style::new().fg(Color::Green)));
        }
        if p.ahead > 0 && p.behind > 0 {
            spans.push(Span::raw(", "));
        }
        if p.behind > 0 {
            spans.push(Span::styled_string(label_number("Behind: ", p.behind), Style::new().fg(Color::Red)));
        }
        spans.push(Span::raw(")"));
    } else {
        spans.push(Span::styled(" (Synced with remote)", Style::new().fg(Color::DarkGray)));
    }
    let l = Line::from_spans(spans);
    assert(l@ =~= branch_line_view(*p));
    l
}

/// The parts joined by `, `.
pub open spec fn comma_joined(parts: Seq<SpanView>) -> Seq<SpanView>
    decreases parts.len(),
{
    if parts.len() <= 1 {
        parts
    } else {
        comma_joined(parts.drop_last()) + seq![(", "@, Style::new()), parts.last()]
    }
}

/// The counts of a dirty project: `~modified` in yellow, `+untracked` in
/// green, `-deleted` in red, each only when not 0.
pub open spec fn dirty_parts(p: Project) -> Seq<SpanView> {
    (if p.modified > 0 { seq![("~"@ + decimal(p.modified as nat), Style::new().fg(Color::Yellow))] } else { seq![] })
        + (if p.untracked > 0 { seq![("+"@ + decimal(p.untracked as nat), Style::new().fg(Color::Green))] } else { seq![] })
        + (if p.deleted > 0 { seq![("-"@ + decimal(p.deleted as nat), Style::new().fg(Color::Red))] } else { seq![] })
}

/// The status line: `Changes Pending` in light yellow with the counts in
/// brackets when dirty, `Clean` in light green otherwise.
pub open spec fn status_line_view(p: Project) -> LineView {
    let head = seq![
        ("Status:  "@, bold()),
        (
            if p.is_dirty { "Changes Pending"@ } else { "Clean"@ },
            Style::new().fg(if p.is_dirty { Color::LightYellow } else { Color::LightGreen }),
        ),
    ];
    if p.is_dirty {
        head + seq![(" ["@, Style::new())] + comma_joined(dirty_parts(p)) + seq![("]"@, Style::new())]
    } else {
        head
    }
}

/// The status line of the detail panel.
pub fn status_line(p: &Project) -> (l: Line)
    ensures
        l@ == status_line_view(*p),
{
    let mut spans = vec![
        Span::styled("Status:  ", Style::new().add_modifier(BOLD)),
        Span::styled(
            if p.is_dirty { "Changes Pending" } else { "Clean" },
            Style::new().fg(if p.is_dirty { Color::LightYellow } else { Color::LightGreen }),
        ),
    ];
    let ghost head = spans_view(spans@);
    if p.is_dirty {
        spans.push(Span::raw(" ["));
        let mut parts: Vec<Span> = Vec::new();
        if p.modified > 0 {
            parts.push(Span::styled_string(label_number("~", p.modified), Style::new().fg(Color::Yellow)));
        }
        if p.untracked > 0 {
            parts.push(Span::styled_string(label_number("+", p.untracked), Style::new().fg(Color::Green)));
        }
        if p.deleted > 0 {
            parts.push(Span::styled_string(label_number("-", p.deleted), Style::new().fg(Color::Red)));
        }
        assert(spans_view(parts@) =~= dirty_parts(*p));
        let ghost all_parts = spans_view(parts@);
        let ghost start = spans_view(spans@);
        assert(start =~= head + seq![(" ["@, Style::new())]);
        let mut i: usize = 0;
        let n = parts.len();
        while parts.len() > 0
            invariant
                n == all_parts.len(),
                i + parts@.len() == n,
                spans_view(parts@) == all_parts.subrange(i as int, n as int),
                spans_view(spans@) == start + comma_joined(all_parts.take(i as int)),
            decreases parts@.len(),
        {
            let ghost old_parts = parts@;
            assert(spans_view(old_parts)[0] == all_parts.subrange(i as int, n as int)[0]);
            let part = parts.remove(0);
            assert(parts@ =~= old_parts.subrange(1, old_parts.len() as int));
            assert(spans_view(parts@) =~= spans_view(old_parts).subrange(1, old_parts.len() as int));
            let ghost pv = part@;
            let ghost sp0 = spans@;
            if i > 0 {
                spans.push(Span::raw(", "));
            }
            let ghost sp1 = spans@;
            spans.push(part);
            proof {
                assert(spans_view(spans@) =~= spans_view(sp1).push(pv));
                if i > 0 {
                    assert(spans_view(sp1) =~= spans_view(sp0).push((", "@, Style::new())));
                    assert(comma_joined(all_parts.take(i + 1)) == comma_joined(all_parts.take(i + 1).drop_last())
                        + seq![(", "@, Style::new()), all_parts.take(i + 1).last()]);
                } else {
                    assert(sp1 == sp0);
                }
                assert(all_parts.take(i + 1).drop_last() =~= all_parts.take(i as int));
                assert(all_parts.take(i + 1).last() == part@);
                assert(spans_view(parts@) =~= all_parts.subrange(i + 1, n as int));
                if i == 0 {
                    assert(all_parts.take(1) =~= seq![part@]);
                }
                assert(spans_view(spans@) =~= start + comma_joined(all_parts.take(i + 1)));
            }
            i = i + 1;
        }
        assert(all_parts.take(n as int) =~= all_parts);
        let ghost body = spans@;
        spans.push(Span::raw("]"));
        assert(spans_view(spans@) =~= spans_view(body).push(("]"@, Style::new())));
    }
    let l = Line::from_spans(spans);
    assert(l@ =~= status_line_view(*p));
    l
}

/// The summary of the last commit, without surrounding whitespace, or
/// `No commits found`.
pub open spec fn commit_text(p: Project) -> Seq<char> {
    trimmed(
        match p.last_commit_msg {
            Some(m) => m@,
            None => "No commits found"@,
        },
    )
}

/// The statistics of a repository: stars, forks and open issues.
pub open spec fn github_text(stars: u32, forks: u32, open_issues: u32) -> Seq<char> {
    "★ "@ + decimal(stars as nat) + "   🍴 "@ + decimal(forks as nat) + "   🐛 "@ + decimal(open_issues as nat)
        + " issues"@
}

/// The symbol of a kind of change.
#[verifier::allow_in_spec]
pub fn change_symbol(kind: FileStatusType) -> &'static str
    returns
        (match kind {
            FileStatusType::Modified => "~",
            FileStatusType::Untracked => "+",
            FileStatusType::Deleted => "-",
        }),
{
    match kind {
        FileStatusType::Modified => "~",
        FileStatusType::Untracked => "+",
        FileStatusType::Deleted => "-",
    }
}

/// The colour of a kind of change.
#[verifier::allow_in_spec]
pub fn change_color(kind: FileStatusType) -> Color
    returns
        (match kind {
            FileStatusType::Modified => Color::Yellow,
            FileStatusType::Untracked => Color::Green,
            FileStatusType::Deleted => Color::Red,
        }),
{
    match kind {
        FileStatusType::Modified => Color::Yellow,
        FileStatusType::Untracked => Color::Green,
        FileStatusType::Deleted => Color::Red,
    }
}

/// The line of one changed file: its symbol, bold in its colour, then the
/// path in white.
pub open spec fn change_line_view(path: Seq<char>, kind: FileStatusType) -> LineView {
    seq![
        ("  "@, Style::new()),
        (change_symbol(kind)@, Style::new().fg(change_color(kind)).add_modifier(BOLD)),
        (" "@, Style::new()),
        (path, Style::new().fg(Color::White)),
    ]
}

/// The lines of the GitHub statistics, when the project has them.
pub open spec fn github_lines_view(p: Project) -> Seq<LineView> {
    match p.github_stats {
        Some(gh) => seq![
            seq![],
            seq![("GitHub:  "@, bold()), (github_text(gh.stars, gh.forks, gh.open_issues), Style::new().fg(Color::Yellow))],
            seq![("URL:     "@, bold()), (gh.url@, Style::new().fg(Color::Blue).add_modifier(UNDERLINED))],
        ],
        None => seq![],
    }
}

/// The lines of the changes of a dirty project: the files it keeps by name,
/// then how many more there are, if any; or that the workspace is clean.
pub open spec fn changes_lines_view(p: Project) -> Seq<LineView> {
    if p.is_dirty {
        let files = changes_view(p.changed_files@);
        let total = p.modified + p.untracked + p.deleted;
        seq![seq![], seq![("Changed Files:"@, bold())]]
            + files.map_values(|c: (Seq<char>, FileStatusType)| change_line_view(c.0, c.1))
            + if total > files.len() {
                seq![
                    seq![
                        ("  "@, Style::new()),
                        (
                            "... and "@ + decimal((total - files.len()) as nat) + " more"@,
                            Style::new().fg(Color::DarkGray).add_modifier(ITALIC),
                        ),
                    ],
                ]
            } else {
                seq![]
            }
    } else {
        seq![seq![], seq![("✨ Workspace is clean"@, Style::new().fg(Color::LightGreen).add_modifier(BOLD))]]
    }
}

/// The lines of the detail panel of a project, `now` being the time in
/// seconds since the epoch.
pub open spec fn detail_view(p: Project, now: i64) -> Seq<LineView> {
    seq![
        seq![("Project: "@, bold()), (p.name@, Style::new().fg(Color::Cyan).add_modifier(BOLD))],
        seq![("Path:    "@, bold()), (p.path@, Style::new())],
        seq![],
        branch_line_view(p),
        status_line_view(p),
        seq![],
        seq![("Last Update: "@, bold()), (time_ago_text(p.last_commit_time, now), Style::new())],
        seq![(commit_text(p), Style::new().fg(Color::DarkGray).add_modifier(ITALIC))],
    ] + github_lines_view(p) + changes_lines_view(p)
}

/// The detail panel of a dirty project ends with `... and N more` exactly
/// when its counts add up to more than the files it lists, N being the
/// difference; otherwise its last lines are the listed files.
pub proof fn lemma_more_changes_line(p: Project, now: i64)
    requires
        p.is_dirty,
    ensures
        ({
            let total = p.modified + p.untracked + p.deleted;
            let n = p.changed_files@.len();
            let head = 8 + if p.github_stats is Some { 3int } else { 0int };
            &&& total > n ==> detail_view(p, now).len() == head + 2 + n + 1 && detail_view(p, now).last() == seq![
                ("  "@, Style::new()),
                (
                    "... and "@ + decimal((total - n) as nat) + " more"@,
                    Style::new().fg(Color::DarkGray).add_modifier(ITALIC),
                ),
            ]
            &&& total <= n ==> detail_view(p, now).len() == head + 2 + n
        }),
{
}

/// The line of two spans.
fn pair_line(a: Span, b: Span) -> (l: Line)
    ensures
        l@ == seq![a@, b@],
{
    let v = vec![a, b];
    let l = Line::from_spans(v);
    assert(l@ =~= seq![a@, b@]);
    l
}

/// The text of the statistics of a repository.
fn github_stats_text(stars: u32, forks: u32, open_issues: u32) -> (t: String)
    ensures
        t@ == github_text(stars, forks, open_issues),
{
    let mut t = String::from_str("★ ");
    push_decimal(&mut t, stars as u64);
    t.append("   🍴 ");
    push_decimal(&mut t, forks as u64);
    t.append("   🐛 ");
    push_decimal(&mut t, open_issues as u64);
    t.append(" issues");
    t
}

/// The lines of the detail panel of a project, `now` being the time in
/// seconds since the epoch.
pub fn detail_lines(p: &Project, now: i64) -> (lines: Vec<Line>)
    requires
        p.modified + p.untracked + p.deleted <= usize::MAX,
    ensures
        lines_view(lines@) == detail_view(*p, now),
        p.is_dirty && p.modified + p.untracked + p.deleted > p.changed_files@.len() ==> lines_view(lines@).last()
            == seq![
            ("  "@, Style::new()),
            (
                "... and "@ + decimal((p.modified + p.untracked + p.deleted - p.changed_files@.len()) as nat)
                    + " more"@,
                Style::new().fg(Color::DarkGray).add_modifier(ITALIC),
            ),
        ],
{
    let mut lines: Vec<Line> = Vec::new();
    lines.push(pair_line(
        Span::styled("Project: ", Style::new().add_modifier(BOLD)),
        Span::styled(p.name.as_str(), Style::new().fg(Color::Cyan).add_modifier(BOLD)),
    ));
    lines.push(pair_line(Span::styled("Path:    ", Style::new().add_modifier(BOLD)), Span::raw(p.path.as_str())));
    lines.push(Line::empty());
    lines.push(branch_line(p));
    lines.push(status_line(p));
    lines.push(Line::empty());
    lines.push(pair_line(
        Span::styled("Last Update: ", Style::new().add_modifier(BOLD)),
        Span::styled_string(format_time_ago_at(p.last_commit_time, now), Style::new()),
    ));
    let msg: &str = match &p.last_commit_msg {
        Some(m) => m.as_str(),
        None => "No commits found",
    };
    lines.push(Line::from_span(Span::styled_string(trim(msg), Style::new().fg(Color::DarkGray).add_modifier(ITALIC))));
    let ghost top = lines_view(lines@);
    assert(top =~= detail_view(*p, now).take(8));
    match &p.github_stats {
        Some(gh) => {
            lines.push(Line::empty());
            lines.push(pair_line(
                Span::styled("GitHub:  ", Style::new().add_modifier(BOLD)),
                Span::styled_string(github_stats_text(gh.stars, gh.forks, gh.open_issues), Style::new().fg(Color::Yellow)),
            ));
            lines.push(pair_line(
                Span::styled("URL:     ", Style::new().add_modifier(BOLD)),
                Span::styled(gh.url.as_str(), Style::new().fg(Color::Blue).add_modifier(UNDERLINED)),
            ));
        },
        None => {},
    }
    let ghost mid = lines_view(lines@);
    assert(mid =~= top + github_lines_view(*p));
    if p.is_dirty {
        lines.push(Line::empty());
        lines.push(Line::from_span(Span::styled("Changed Files:", Style::new().add_modifier(BOLD))));
        let ghost files = changes_view(p.changed_files@);
        let ghost before_files = lines_view(lines@);
        assert(before_files =~= mid + seq![seq![], seq![("Changed Files:"@, bold())]]);
        let mut i: usize = 0;
        while i < p.changed_files.len()
            invariant
                i <= p.changed_files@.len(),
                files == changes_view(p.changed_files@),
                lines_view(lines@) == before_files + files.take(i as int).map_values(
                    |c: (Seq<char>, FileStatusType)| change_line_view(c.0, c.1),
                ),
            decreases p.changed_files@.len() - i,
        {
            let entry = &p.changed_files[i];
            let kind = entry.1;
            let v = vec![
                Span::raw("  "),
                Span::styled(change_symbol(kind), Style::new().fg(change_color(kind)).add_modifier(BOLD)),
                Span::raw(" "),
                Span::styled(entry.0.as_str(), Style::new().fg(Color::White)),
            ];
            let l = Line::from_spans(v);
            assert(l@ =~= change_line_view(files[i as int].0, files[i as int].1));
            let ghost prev = lines@;
            lines.push(l);
            proof {
                assert(files.take(i + 1) =~= files.take(i as int).push(files[i as int]));
                assert(lines_view(lines@) =~= lines_view(prev).push(l@));
                assert(files.take(i + 1).map_values(|c: (Seq<char>, FileStatusType)| change_line_view(c.0, c.1))
                    =~= files.take(i as int).map_values(|c: (Seq<char>, FileStatusType)| change_line_view(c.0, c.1)).push(l@));
            }
            i = i + 1;
        }
        assert(files.take(files.len() as int) =~= files);
        let ghost after_files = lines_view(lines@);
        let total = p.modified + p.untracked + p.deleted;
        if total > p.changed_files.len() {
            let mut more = String::from_str("... and ");
            push_decimal(&mut more, (total - p.changed_files.len()) as u64);
            more.append(" more");
            lines.push(pair_line(
                Span::raw("  "),
                Span::styled_string(more, Style::new().fg(Color::DarkGray).add_modifier(ITALIC)),
            ));
            assert(lines_view(lines@) =~= after_files + seq![
                seq![
                    ("  "@, Style::new()),
                    (
                        "... and "@ + decimal((total - files.len()) as nat) + " more"@,
                        Style::new().fg(Color::DarkGray).add_modifier(ITALIC),
                    ),
                ],
            ]);
        } else {
            assert(lines_view(lines@) =~= after_files);
        }
        assert(lines_view(lines@) =~= mid + changes_lines_view(*p));
    } else {
        lines.push(Line::empty());
        lines.push(Line::from_span(
            Span::styled("✨ Workspace is clean", Style::new().fg(Color::LightGreen).add_modifier(BOLD)),
        ));
        assert(lines_view(lines@) =~= mid + changes_lines_view(*p));
    }
    assert(lines_view(lines@) =~= detail_view(*p, now));
    proof {
        if p.is_dirty {
            lemma_more_changes_line(*p, now);
        }
    }
    lines
}

/// The lines of the project list, one per project, in order.
pub fn project_list_lines(projects: &Vec<Project>) -> (lines: Vec<Line>)
    ensures
        lines_view(lines@) == projects@.map_values(|p: Project| list_line_view(p)),
{
    let mut lines: Vec<Line> = Vec::new();
    let mut i: usize = 0;
    while i < projects.len()
        invariant
            i <= projects@.len(),
            lines_view(lines@) == projects@.take(i as int).map_values(|p: Project| list_line_view(p)),
        decreases projects@.len() - i,
    {
        let l = project_list_line(&projects[i]);
        let ghost prev = lines@;
        lines.push(l);
        proof {
            assert(projects@.take(i + 1) =~= projects@.take(i as int).push(projects@[i as int]));
            assert(lines_view(lines@) =~= lines_view(prev).push(l@));
            assert(projects@.take(i + 1).map_values(|p: Project| list_line_view(p))
                =~= projects@.take(i as int).map_values(|p: Project| list_line_view(p)).push(l@));
        }
        i = i + 1;
    }
    assert(projects@.take(projects@.len() as int) =~= projects@);
    lines
}

/// What the panel beside the project list shows.
pub enum DetailPanel {
    /// The name of a new project being typed.
    Input(String),
    /// The details of the selected project.
    Details(Vec<Line>),
    /// A message in place of details.
    Message(String),
    /// Nothing: the selection is past the end of the list.
    Blank,
}

/// What the panel beside the project list shows, as text.
pub enum DetailPanelView {
    Input(Seq<char>),
    Details(Seq<LineView>),
    Message(Seq<char>),
    Blank,
}

impl View for DetailPanel {
    type V = DetailPanelView;

    open spec fn view(&self) -> DetailPanelView {
        match self {
            DetailPanel::Input(t) => DetailPanelView::Input(t@),
            DetailPanel::Details(lines) => DetailPanelView::Details(lines_view(lines@)),
            DetailPanel::Message(t) => DetailPanelView::Message(t@),
            DetailPanel::Blank => DetailPanelView::Blank,
        }
    }
}

/// The panel beside the list: the name being typed while a project is
/// named; otherwise the details of the selected project, nothing when the
/// selection is past the end of the list, or a message when nothing is
/// selected.
pub open spec fn detail_panel_view(app: AppView, selected: Option<usize>, now: i64) -> DetailPanelView {
    if app.input_mode == InputMode::CreatingProject {
        DetailPanelView::Input("Enter new project name: "@ + app.input_buffer)
    } else {
        match selected {
            Some(i) => if i < app.projects.len() {
                DetailPanelView::Details(detail_view(app.projects[i as int], now))
            } else {
                DetailPanelView::Blank
            },
            None => DetailPanelView::Message(empty_message_text(app.is_loading, app.projects.len() == 0)),
        }
    }
}

/// The panel beside the list, for the selection as the list holds it once
/// drawn (drawing clamps it to the list), `now` being the time in seconds
/// since the epoch.
pub fn detail_panel(app: &App, selected: Option<usize>, now: i64) -> (panel: DetailPanel)
    requires
        selected is Some && selected->0 < app.projects@.len() ==> app.projects@[selected->0 as int].modified
            + app.projects@[selected->0 as int].untracked + app.projects@[selected->0 as int].deleted
            <= usize::MAX,
    ensures
        panel@ == detail_panel_view(app@, selected, now),
{
    if app.input_mode == InputMode::CreatingProject {
        DetailPanel::Input(input_text(app.input_buffer.as_str()))
    } else {
        match selected {
            Some(i) => {
                if i < app.projects.len() {
                    DetailPanel::Details(detail_lines(&app.projects[i], now))
                } else {
                    DetailPanel::Blank
                }
            },
            None => DetailPanel::Message(empty_message(app.is_loading, app.projects.len() == 0)),
        }
    }
}

} // verus!
