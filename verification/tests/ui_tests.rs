use tropical_pm::app::{App, Event, KeyCode};
use tropical_pm::ui::{detail_panel, DetailPanel};
use tropical_pm::project::{GitHubStats, Project, RepoScan, StatusFlags};
use tropical_pm::style::{Color, Line, Style, BOLD, ITALIC, UNDERLINED};
use tropical_pm::ui::{
    branch_line, detail_lines, empty_message, format_time_ago, format_time_ago_at, input_text, project_list_line,
    projects_title, status_line, sync_symbol, title_style, MASTER_DIR,
};

fn flags() -> StatusFlags {
    StatusFlags {
        index_new: false,
        index_modified: false,
        index_deleted: false,
        index_renamed: false,
        wt_new: false,
        wt_modified: false,
        wt_deleted: false,
        wt_renamed: false,
    }
}

fn texts(line: &Line) -> Vec<&str> {
    line.spans.iter().map(|s| s.content.as_str()).collect()
}

fn fg(c: Color) -> Style {
    Style::new().fg(c)
}

fn project(statuses: Vec<(String, StatusFlags)>, ahead_behind: Option<(usize, usize)>) -> Project {
    Project::from_scan(
        RepoScan {
            name: "demo".to_string(),
            path: "/work/demo".to_string(),
            branch: Some("dev".to_string()),
            head_commit: Some((1000, Some("  Fix the parser \n".to_string()))),
            ahead_behind,
            statuses,
        },
        None,
    )
}

#[test]
fn time_ago_buckets() {
    assert_eq!(format_time_ago_at(0, 5000), "Unknown");
    assert_eq!(format_time_ago_at(1000, 1000), "just now");
    assert_eq!(format_time_ago_at(1000, 1059), "just now");
    assert_eq!(format_time_ago_at(1000, 1060), "1 minutes ago");
    assert_eq!(format_time_ago_at(1000, 1000 + 3599), "59 minutes ago");
    assert_eq!(format_time_ago_at(1000, 1000 + 3600), "1 hours ago");
    assert_eq!(format_time_ago_at(1000, 1000 + 86399), "23 hours ago");
    assert_eq!(format_time_ago_at(1000, 1000 + 86400), "1 days ago");
    assert_eq!(format_time_ago_at(1000, 1000 + 2591999), "29 days ago");
    assert_eq!(format_time_ago_at(1000, 1000 + 2592000), "1 months ago");
    assert_eq!(format_time_ago_at(1000, 1000 + 31535999), "12 months ago");
    assert_eq!(format_time_ago_at(1000, 1000 + 31536000), "1 years ago");
    assert_eq!(format_time_ago_at(1000, 1000 + 10 * 31536000 + 5), "10 years ago");
    assert_eq!(format_time_ago_at(-100, 0), "1 minutes ago");
}

#[test]
fn time_ago_in_the_future_or_wrapped() {
    assert_eq!(format_time_ago_at(5000, 1000), "just now");
    assert_eq!(format_time_ago_at(i64::MIN, 100), "just now");
    assert_eq!(format_time_ago_at(-1, i64::MAX), "just now");
}

#[test]
fn time_ago_by_the_clock() {
    assert_eq!(format_time_ago(0), "Unknown");
    assert!(format_time_ago(1).ends_with(" years ago"));
}

#[test]
fn sync_symbols() {
    assert_eq!(sync_symbol(0, 0), "");
    assert_eq!(sync_symbol(2, 0), " ↑");
    assert_eq!(sync_symbol(0, 1), " ↓");
    assert_eq!(sync_symbol(1, 1), " ⇅");
}

#[test]
fn list_lines() {
    let clean = project(vec![], Some((3, 0)));
    let l = project_list_line(&clean);
    assert_eq!(texts(&l), vec!["✓ ", "demo", " ↑"]);
    assert_eq!(l.spans[0].style, fg(Color::Green));
    assert_eq!(l.spans[1].style, Style::new());
    assert_eq!(l.spans[2].style, fg(Color::LightBlue));
    let dirty = project(vec![("a".to_string(), StatusFlags { wt_new: true, ..flags() })], None);
    let d = project_list_line(&dirty);
    assert_eq!(texts(&d), vec!["✗ ", "demo", ""]);
    assert_eq!(d.spans[0].style, fg(Color::Red));
}

#[test]
fn titles_and_messages() {
    assert_eq!(projects_title(false, 9), " Projects (q:quit, r:refresh, c:create) ");
    assert_eq!(projects_title(true, 0), " Projects ⠋ Scanning... ");
    assert_eq!(projects_title(true, 5), " Projects ⠹ Scanning... ");
    assert_eq!(title_style(true), fg(Color::Yellow));
    assert_eq!(title_style(false), fg(Color::White));
    assert_eq!(input_text("abc"), "Enter new project name: abc");
    assert_eq!(empty_message(true, true), "Scanning master directory for projects...");
    assert_eq!(empty_message(false, true), format!("No projects found in {}. Try 'r' to refresh.", MASTER_DIR));
    assert_eq!(empty_message(false, false), "Select a project to see details.");
}

#[test]
fn branch_lines() {
    let synced = branch_line(&project(vec![], None));
    assert_eq!(texts(&synced), vec!["Branch:  ", "dev", " (Synced with remote)"]);
    assert_eq!(synced.spans[0].style, Style::new().add_modifier(BOLD));
    assert_eq!(synced.spans[1].style, fg(Color::Magenta).add_modifier(BOLD));
    assert_eq!(synced.spans[2].style, fg(Color::DarkGray));
    let both = branch_line(&project(vec![], Some((2, 13))));
    assert_eq!(texts(&both), vec!["Branch:  ", "dev", " (", "Ahead: 2", ", ", "Behind: 13", ")"]);
    assert_eq!(both.spans[3].style, fg(Color::Green));
    assert_eq!(both.spans[5].style, fg(Color::Red));
    let ahead = branch_line(&project(vec![], Some((4, 0))));
    assert_eq!(texts(&ahead), vec!["Branch:  ", "dev", " (", "Ahead: 4", ")"]);
    let behind = branch_line(&project(vec![], Some((0, 1))));
    assert_eq!(texts(&behind), vec!["Branch:  ", "dev", " (", "Behind: 1", ")"]);
}

#[test]
fn status_lines() {
    let clean = status_line(&project(vec![], None));
    assert_eq!(texts(&clean), vec!["Status:  ", "Clean"]);
    assert_eq!(clean.spans[1].style, fg(Color::LightGreen));
    let entries = vec![
        ("a".to_string(), StatusFlags { wt_new: true, ..flags() }),
        ("b".to_string(), StatusFlags { wt_modified: true, ..flags() }),
        ("c".to_string(), StatusFlags { wt_modified: true, ..flags() }),
        ("d".to_string(), StatusFlags { wt_deleted: true, ..flags() }),
    ];
    let dirty = status_line(&project(entries, None));
    assert_eq!(texts(&dirty), vec!["Status:  ", "Changes Pending", " [", "~2", ", ", "+1", ", ", "-1", "]"]);
    assert_eq!(dirty.spans[1].style, fg(Color::LightYellow));
    assert_eq!(dirty.spans[3].style, fg(Color::Yellow));
    assert_eq!(dirty.spans[5].style, fg(Color::Green));
    assert_eq!(dirty.spans[7].style, fg(Color::Red));
    let only_new = status_line(&project(vec![("a".to_string(), StatusFlags { index_new: true, ..flags() })], None));
    assert_eq!(texts(&only_new), vec!["Status:  ", "Changes Pending", " [", "+1", "]"]);
}

#[test]
fn details_of_a_clean_project() {
    let mut p = project(vec![], None);
    p.github_stats =
        Some(GitHubStats { stars: 12, forks: 3, open_issues: 4, url: "https://github.com/o/demo".to_string() });
    let lines = detail_lines(&p, 1000 + 7200);
    let all: Vec<Vec<&str>> = lines.iter().map(texts).collect();
    assert_eq!(
        all,
        vec![
            vec!["Project: ", "demo"],
            vec!["Path:    ", "/work/demo"],
            vec![],
            vec!["Branch:  ", "dev", " (Synced with remote)"],
            vec!["Status:  ", "Clean"],
            vec![],
            vec!["Last Update: ", "2 hours ago"],
            vec!["Fix the parser"],
            vec![],
            vec!["GitHub:  ", "★ 12   🍴 3   🐛 4 issues"],
            vec!["URL:     ", "https://github.com/o/demo"],
            vec![],
            vec!["✨ Workspace is clean"],
        ]
    );
    assert_eq!(lines[0].spans[1].style, fg(Color::Cyan).add_modifier(BOLD));
    assert_eq!(lines[7].spans[0].style, fg(Color::DarkGray).add_modifier(ITALIC));
    assert_eq!(lines[9].spans[1].style, fg(Color::Yellow));
    assert_eq!(lines[10].spans[1].style, fg(Color::Blue).add_modifier(UNDERLINED));
    assert_eq!(lines[12].spans[0].style, fg(Color::LightGreen).add_modifier(BOLD));
}

#[test]
fn details_of_a_dirty_project() {
    let entries: Vec<(String, StatusFlags)> = (0..17)
        .map(|i| (format!("f{}.rs", i), StatusFlags { wt_modified: true, ..flags() }))
        .collect();
    let mut p = project(entries, None);
    p.last_commit_msg = None;
    let lines = detail_lines(&p, 1030);
    assert_eq!(lines.len(), 8 + 2 + 15 + 1);
    assert_eq!(texts(&lines[6]), vec!["Last Update: ", "just now"]);
    assert_eq!(texts(&lines[7]), vec!["No commits found"]);
    assert_eq!(texts(&lines[9]), vec!["Changed Files:"]);
    assert_eq!(texts(&lines[10]), vec!["  ", "~", " ", "f0.rs"]);
    assert_eq!(lines[10].spans[1].style, fg(Color::Yellow).add_modifier(BOLD));
    assert_eq!(lines[10].spans[3].style, fg(Color::White));
    assert_eq!(texts(&lines[25]), vec!["  ", "... and 2 more"]);
    let few = project(vec![("n".to_string(), StatusFlags { wt_new: true, wt_deleted: true, ..flags() })], None);
    let lines = detail_lines(&few, 1000);
    assert_eq!(lines.len(), 8 + 2 + 2);
    assert_eq!(texts(&lines[10]), vec!["  ", "+", " ", "n"]);
    assert_eq!(texts(&lines[11]), vec!["  ", "-", " ", "n"]);
    assert_eq!(lines[11].spans[1].style, fg(Color::Red).add_modifier(BOLD));
}

#[test]
fn list_lines_in_order() {
    let projects = vec![project(vec![], None), project(vec![("a".to_string(), StatusFlags { wt_new: true, ..flags() })], None)];
    let lines = tropical_pm::ui::project_list_lines(&projects);
    assert_eq!(lines.len(), 2);
    assert_eq!(texts(&lines[0]), vec!["✓ ", "demo", ""]);
    assert_eq!(texts(&lines[1]), vec!["✗ ", "demo", ""]);
    assert!(tropical_pm::ui::project_list_lines(&vec![]).is_empty());
}

#[test]
fn panel_beside_the_list() {
    let mut app = App::new();
    match detail_panel(&app, None, 0) {
        DetailPanel::Message(t) => assert_eq!(t, "Scanning master directory for projects..."),
        _ => panic!("expected a message"),
    }
    app.receive_projects(vec![]);
    match detail_panel(&app, None, 0) {
        DetailPanel::Message(t) => assert_eq!(t, "No projects found in K:/source. Try 'r' to refresh."),
        _ => panic!("expected a message"),
    }
    app.receive_projects(vec![project(vec![], None)]);
    match detail_panel(&app, Some(0), 1000 + 120) {
        DetailPanel::Details(lines) => {
            assert_eq!(lines.len(), 10);
            assert_eq!(texts(&lines[6]), vec!["Last Update: ", "2 minutes ago"]);
        },
        _ => panic!("expected details"),
    }
    assert!(matches!(detail_panel(&app, Some(1), 0), DetailPanel::Blank));
    match detail_panel(&app, None, 0) {
        DetailPanel::Message(t) => assert_eq!(t, "Select a project to see details."),
        _ => panic!("expected a message"),
    }
    app.handle_event(Event::Key { code: KeyCode::Char('c'), press: true });
    app.handle_event(Event::Key { code: KeyCode::Char('z'), press: true });
    match detail_panel(&app, Some(0), 0) {
        DetailPanel::Input(t) => assert_eq!(t, "Enter new project name: z"),
        _ => panic!("expected the input"),
    }
}

fn age_rank(text: &str) -> (u32, u64) {
    if text == "just now" {
        return (0, 0);
    }
    let (n, rest) = text.split_once(' ').unwrap();
    let unit = match rest {
        "minutes ago" => 1,
        "hours ago" => 2,
        "days ago" => 3,
        "months ago" => 4,
        "years ago" => 5,
        _ => panic!("unexpected text {}", text),
    };
    (unit, n.parse().unwrap())
}

#[test]
fn older_commits_never_read_newer() {
    let now: i64 = 2_000_000_000;
    let ages: [i64; 14] = [-5, 0, 59, 60, 119, 3599, 3600, 86399, 86400, 2591999, 2592000, 31535999, 31536000, 400_000_000];
    for &a in ages.iter() {
        for &b in ages.iter() {
            if a <= b {
                let newer = format_time_ago_at(now - a, now);
                let older = format_time_ago_at(now - b, now);
                assert!(age_rank(&newer) <= age_rank(&older), "{} vs {}", newer, older);
            }
        }
    }
}
