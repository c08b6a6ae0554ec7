use tropical_pm::style::{Color, Line, Span, Style, BOLD, ITALIC, UNDERLINED};
use tropical_pm::theme::{
    spinner_frame, Brand, Theme, BAR_FULL, BAR_LIGHT, CURSOR_BLOCK, DOT_OFF, DOT_ON, NAV_ACTIVE_PREFIX,
    NAV_IDLE_PREFIX, SPINNER_FRAME_COUNT, TREE_BRANCH,
};

const ALL_BRANDS: [Brand; 6] = [
    Brand::Tropical,
    Brand::Mango,
    Brand::Ocean,
    Brand::Pitahaya,
    Brand::Papaya,
    Brand::Balandra,
];

fn fg(c: Color) -> Style {
    Style { fg: Some(c), bg: None, add_modifier: 0, sub_modifier: 0 }
}

fn texts(spans: &[Span]) -> Vec<&str> {
    spans.iter().map(|s| s.content.as_str()).collect()
}

fn line_texts(line: &Line) -> Vec<&str> {
    texts(&line.spans)
}

#[test]
fn default_brand_is_tropical() {
    assert_eq!(Brand::default(), Brand::Tropical);
}

#[test]
fn brand_accents() {
    let t = Theme::from_brand(Brand::Tropical);
    assert_eq!(t.primary, Color::Rgb(66, 133, 244));
    assert_eq!(t.primary_light, Color::Rgb(138, 180, 248));
    assert_eq!(t.primary_bg, Color::Rgb(24, 40, 72));
    assert_eq!(t.secondary, Color::Rgb(197, 169, 245));
    let m = Theme::from_brand(Brand::Mango);
    assert_eq!(m.primary, Color::Rgb(255, 179, 71));
    assert_eq!(m.surface_0, Color::Rgb(17, 16, 13));
    assert_eq!(m.surface_2, Color::Rgb(27, 25, 21));
    let o = Theme::from_brand(Brand::Ocean);
    assert_eq!(o.primary_bg, Color::Rgb(227, 242, 253));
    assert_eq!(o.surface_0, Color::Rgb(10, 12, 16));
    let p = Theme::from_brand(Brand::Pitahaya);
    assert_eq!(p.secondary, Color::Rgb(46, 139, 87));
    assert_eq!(p.surface_1, Color::Rgb(24, 17, 18));
    let pa = Theme::from_brand(Brand::Papaya);
    assert_eq!(pa.primary, Color::Rgb(255, 138, 101));
    let b = Theme::from_brand(Brand::Balandra);
    assert_eq!(b.primary_light, Color::Rgb(192, 132, 252));
    assert_eq!(b.surface_2, Color::Rgb(24, 21, 29));
}

#[test]
fn fixed_tokens_are_shared_by_all_brands() {
    let t = Theme::from_brand(Brand::Tropical);
    for b in ALL_BRANDS {
        let u = Theme::from_brand(b);
        assert_eq!(u.surface_3, Color::Rgb(26, 30, 38));
        assert_eq!(u.surface_6, Color::Rgb(50, 56, 69));
        assert_eq!(u.text_primary, t.text_primary);
        assert_eq!(u.text_disabled, Color::Rgb(51, 51, 51));
        assert_eq!(u.success, Color::Rgb(52, 168, 83));
        assert_eq!(u.warning, Color::Rgb(251, 191, 36));
        assert_eq!(u.danger, Color::Rgb(242, 139, 130));
        assert_eq!(u.info, Color::Rgb(96, 165, 250));
        assert_eq!(u.border_default, u.surface_4);
        assert_eq!(u.border_subtle, t.surface_2);
    }
}

#[test]
fn slate_brands_share_surfaces() {
    let t = Theme::from_brand(Brand::Tropical);
    for b in [Brand::Ocean, Brand::Papaya] {
        let u = Theme::from_brand(b);
        assert_eq!((u.surface_0, u.surface_1, u.surface_2), (t.surface_0, t.surface_1, t.surface_2));
    }
}

#[test]
fn plain_styles() {
    let t = Theme::from_brand(Brand::Tropical);
    assert_eq!(t.text(), fg(Color::Rgb(235, 235, 235)));
    assert_eq!(t.text_dim(), fg(Color::Rgb(166, 166, 166)));
    assert_eq!(t.text_muted(), fg(Color::Rgb(102, 102, 102)));
    assert_eq!(t.text_disabled(), fg(Color::Rgb(51, 51, 51)));
    assert_eq!(t.success(), fg(t.success_light));
    assert_eq!(t.info(), fg(t.info));
    assert_eq!(t.border(), fg(t.border_default));
    assert_eq!(t.border_active(), fg(t.primary));
    assert_eq!(t.block_title(), fg(t.text_tertiary));
    assert_eq!(t.git_clean(), fg(t.success_light));
    assert_eq!(t.git_dirty(), fg(t.danger));
    assert_eq!(t.git_behind(), fg(t.danger));
    assert_eq!(t.github_stats(), fg(t.primary_light));
}

#[test]
fn modified_styles() {
    let t = Theme::from_brand(Brand::Ocean);
    assert_eq!(t.accent(), Style { add_modifier: BOLD, ..fg(t.primary) });
    assert_eq!(t.link(), Style { add_modifier: UNDERLINED, ..fg(t.primary) });
    assert_eq!(t.commit_msg(), Style { add_modifier: ITALIC, ..fg(t.text_tertiary) });
    assert_eq!(t.spinner(), Style { add_modifier: BOLD, ..fg(t.warning) });
    assert_eq!(t.branch_name(), Style { add_modifier: BOLD, ..fg(t.secondary) });
    assert_eq!(
        t.row_active(),
        Style { fg: Some(t.primary_light), bg: Some(t.surface_3), add_modifier: 0, sub_modifier: 0 }
    );
}

#[test]
fn status_bar_matches_selected_row() {
    for b in ALL_BRANDS {
        let t = Theme::from_brand(b);
        assert_eq!(t.status_bar(), t.row_selected());
        assert_eq!(
            t.status_bar(),
            Style { fg: Some(Color::Rgb(5, 5, 5)), bg: Some(t.primary), add_modifier: BOLD, sub_modifier: 0 }
        );
    }
}

#[test]
fn dots() {
    let t = Theme::from_brand(Brand::Tropical);
    assert_eq!(t.dot_on().content, DOT_ON);
    assert_eq!(t.dot_on().style, Style { add_modifier: BOLD, ..fg(t.success_light) });
    assert_eq!(t.dot_warn().style, fg(t.warning));
    assert_eq!(t.dot_err().style, fg(t.danger));
    assert_eq!(t.dot_info().style, fg(t.info));
    assert_eq!(t.dot_off().content, DOT_OFF);
    assert_eq!(t.dot_off().style, fg(t.text_disabled));
}

#[test]
fn key_hints() {
    let t = Theme::from_brand(Brand::Tropical);
    let k = t.key_hint("q");
    assert_eq!(k.content, "q");
    assert_eq!(
        k.style,
        Style { fg: Some(t.text_secondary), bg: Some(t.surface_4), add_modifier: BOLD, sub_modifier: 0 }
    );
    let seg = t.key_hint_segment("r", "refresh");
    assert_eq!(texts(&seg), vec!["[", "r", "]", " ", "refresh", "  "]);
    assert_eq!(seg[0].style, t.text_muted());
    assert_eq!(seg[3].style, Style::new());
    assert_eq!(seg[4].style, t.text_disabled());
}

#[test]
fn status_segments_and_bar() {
    let t = Theme::from_brand(Brand::Mango);
    let seg = t.status_seg("MODE", "NORMAL");
    assert_eq!(texts(&seg), vec!["[ ", "MODE", ": ", "NORMAL", " ]", "  "]);
    assert_eq!(seg[1].style, t.status_bar());
    assert_eq!(seg[3].style, t.status_bar());
    let line = t.status_bar_line(vec![("MODE", "NORMAL"), ("N", "3")], vec![("q", "quit")]);
    assert_eq!(
        line_texts(&line),
        vec![
            "[ ", "MODE", ": ", "NORMAL", " ]", "  ", "[ ", "N", ": ", "3", " ]", "  ", "    ", "[", "q", "] ",
            "quit", "  "
        ]
    );
    assert_eq!(line.spans[14].style.add_modifier, BOLD | UNDERLINED);
    assert_eq!(line.spans[16].style, t.status_bar());
    let empty = t.status_bar_line(vec![], vec![]);
    assert_eq!(line_texts(&empty), vec!["    "]);
}

#[test]
fn nav_and_tree_items() {
    let t = Theme::from_brand(Brand::Tropical);
    let a = t.nav_item("Home", true);
    assert_eq!(line_texts(&a), vec![NAV_ACTIVE_PREFIX, "Home"]);
    assert_eq!(a.spans[1].style, t.accent());
    let i = t.nav_item("Home", false);
    assert_eq!(line_texts(&i), vec![NAV_IDLE_PREFIX, "Home"]);
    assert_eq!(i.spans[0].style, Style::new());
    assert_eq!(i.spans[1].style, t.text_muted());
    let ta = t.tree_item("src", TREE_BRANCH, true);
    assert_eq!(line_texts(&ta), vec![TREE_BRANCH, "src"]);
    assert_eq!(ta.spans[1].style, Style { fg: Some(t.primary), bg: Some(t.primary_bg), add_modifier: 0, sub_modifier: 0 });
    let ti = t.tree_item("src", TREE_BRANCH, false);
    assert_eq!(ti.spans[1].style, t.text_dim());
}

#[test]
fn progress_bars() {
    let t = Theme::from_brand(Brand::Tropical);
    let full: String = [BAR_FULL, BAR_FULL, BAR_LIGHT, BAR_LIGHT].iter().collect();
    let half = t.progress_bar(2, 4, 50);
    assert_eq!(half[0].content, full);
    assert_eq!(half[0].style, fg(t.primary));
    assert_eq!(half[1].content, "  50%");
    assert_eq!(half[1].style, t.text_muted());
    let done = t.progress_bar(3, 3, 100);
    assert_eq!(done[0].content, "███");
    assert_eq!(done[1].content, " 100%");
    assert_eq!(done[0].style, fg(t.success_light));
    let low = t.progress_bar(0, 0, 5);
    assert_eq!(low[0].content, "");
    assert_eq!(low[1].content, "   5%");
    assert_eq!(low[0].style, fg(t.text_disabled));
    assert_eq!(t.progress_bar(1, 2, 80)[0].style, fg(t.success_light));
    assert_eq!(t.progress_bar(1, 2, 79)[0].style, fg(t.primary));
    assert_eq!(t.progress_bar(1, 2, 40)[0].style, fg(t.primary));
    assert_eq!(t.progress_bar(1, 2, 39)[0].style, fg(t.text_disabled));
    assert_eq!(t.progress_bar(5, 2, 0)[0].content, "██");
}

#[test]
fn cursor_blinks() {
    let t = Theme::from_brand(Brand::Tropical);
    for tick in 0..4u8 {
        let c = t.cursor_span(tick);
        assert_eq!(c.content, CURSOR_BLOCK);
        assert_eq!(c.style, fg(t.primary));
    }
    for tick in 4..8u8 {
        let c = t.cursor_span(tick);
        assert_eq!(c.content, " ");
        assert_eq!(c.style, Style::new());
    }
    for tick in 0..=247u8 {
        assert_eq!(t.cursor_span(tick).content, t.cursor_span(tick + 8).content);
    }
}

#[test]
fn spinner_turns() {
    let t = Theme::from_brand(Brand::Tropical);
    assert_eq!(t.spinner_span(0).content, "⠋");
    assert_eq!(t.spinner_span(1).content, "⠋");
    assert_eq!(t.spinner_span(2).content, "⠙");
    assert_eq!(t.spinner_span(19).content, "⠏");
    assert_eq!(t.spinner_span(20).content, "⠋");
    assert_eq!(t.spinner_span(255).content, spinner_frame(127 % SPINNER_FRAME_COUNT));
    assert_eq!(t.spinner_span(7).style, t.spinner());
    for tick in 0..=235u8 {
        assert_eq!(t.spinner_span(tick).content, t.spinner_span(tick + 20).content);
    }
}

#[test]
fn headers_and_prompts() {
    let t = Theme::from_brand(Brand::Balandra);
    let h = t.panel_header_line("Projects");
    assert_eq!(line_texts(&h), vec!["[ Projects ]"]);
    assert_eq!(h.spans[0].style, t.status_bar());
    let p = t.prompt_line("jules", "~/src", "ls", 0);
    assert_eq!(line_texts(&p), vec!["jules", ":", "~/src", "$ ", "ls", CURSOR_BLOCK]);
    assert_eq!(p.spans[0].style, t.success());
    assert_eq!(p.spans[2].style, t.accent());
    assert_eq!(p.spans[4].style, t.text());
    let q = t.prompt_line("jules", "~/src", "ls", 4);
    assert_eq!(q.spans[5].content, " ");
}
