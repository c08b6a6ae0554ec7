//! The colour theme: brand presets, the semantic colour slots of a theme,
//! and the styles and styled pieces of text built from them.
use vstd::prelude::*;
use vstd::string::*;
use crate::style::{spans_view, Color, Line, Span, Style, BOLD, ITALIC, UNDERLINED};
use crate::text::{decimal, decimal_string, pad_left, pad_left_string, push_char};

verus! {

/// A brand preset; each gives the theme its accent colours and, for some,
/// a tinted surface ramp.
#[derive(Clone, Copy, Debug, PartialEq, Eq, Structural)]
pub enum Brand {
    Tropical,
    Mango,
    Ocean,
    Pitahaya,
    Papaya,
    Balandra,
}

impl Default for Brand {
    /// The master brand, `Tropical`.
    fn default() -> (b: Brand)
        ensures
            b == Brand::Tropical,
    {
        Brand::Tropical
    }
}

/// Ticks of the shortest animation step.
pub const DUR_INSTANT_TICKS: u8 = 1;
/// Ticks for which a spinner frame stays.
pub const DUR_FAST_TICKS: u8 = 2;
/// Ticks for which the input cursor stays shown, then hidden.
pub const DUR_BASE_TICKS: u8 = 4;
/// Ticks of a slow animation step.
pub const DUR_SLOW_TICKS: u8 = 6;

/// Number of frames of the spinner.
pub const SPINNER_FRAME_COUNT: usize = 10;

/// The frames of the spinner, an orbit of Braille dots, in order.
#[verifier::allow_in_spec]
pub fn spinner_frame(index: usize) -> &'static str
    requires
        index < SPINNER_FRAME_COUNT,
    returns
        (match index {
            0 => "⠋",
            1 => "⠙",
            2 => "⠹",
            3 => "⠸",
            4 => "⠼",
            5 => "⠴",
            6 => "⠦",
            7 => "⠧",
            8 => "⠇",
            _ => "⠏",
        }),
{
    match index {
        0 => "⠋",
        1 => "⠙",
        2 => "⠹",
        3 => "⠸",
        4 => "⠼",
        5 => "⠴",
        6 => "⠦",
        7 => "⠧",
        8 => "⠇",
        _ => "⠏",
    }
}

/// The block drawn as the cursor of an active input.
pub const CURSOR_BLOCK: &'static str = "█";

/// Prefix of the active item of a navigation list.
pub const NAV_ACTIVE_PREFIX: &'static str = "❯ ";
/// Prefix of the other items of a navigation list.
pub const NAV_IDLE_PREFIX: &'static str = "  ";

/// Prefix of an inner item of a tree.
pub const TREE_BRANCH: &'static str = "┣━ ";
/// Prefix of the last item of a tree level.
pub const TREE_LAST: &'static str = "┗━ ";
/// Continuation of a tree level.
pub const TREE_PIPE: &'static str = "┃  ";
/// Marker of an open tree node.
pub const TREE_DOWN: &'static str = "▼ ";
/// Marker of a closed tree node.
pub const TREE_RIGHT: &'static str = "▶ ";

/// A filled cell of a progress bar.
pub const BAR_FULL: char = '█';
/// An empty cell of a progress bar.
pub const BAR_LIGHT: char = '░';

/// Status dot: on.
pub const DOT_ON: &'static str = "●";
/// Status dot: warning.
pub const DOT_WARN: &'static str = "●";
/// Status dot: error.
pub const DOT_ERR: &'static str = "●";
/// Status dot: information.
pub const DOT_INFO: &'static str = "●";
/// Status dot: off.
pub const DOT_OFF: &'static str = "○";

/// The semantic colour slots of a theme.
#[derive(Clone, Copy, Debug, PartialEq, Eq, Structural)]
pub struct Theme {
    pub surface_0: Color,
    pub surface_1: Color,
    pub surface_2: Color,
    pub surface_3: Color,
    pub surface_4: Color,
    pub surface_5: Color,
    pub surface_6: Color,
    pub text_primary: Color,
    pub text_secondary: Color,
    pub text_tertiary: Color,
    pub text_disabled: Color,
    pub primary: Color,
    pub primary_light: Color,
    pub primary_bg: Color,
    pub secondary: Color,
    pub success: Color,
    pub success_light: Color,
    pub warning: Color,
    pub danger: Color,
    pub info: Color,
    pub border_default: Color,
    pub border_subtle: Color,
}

/// The near-black text drawn on the primary colour.
#[verifier::allow_in_spec]
pub fn ink() -> Color
    returns
        Color::Rgb(5, 5, 5),
{
    Color::Rgb(5, 5, 5)
}

/// The first three surfaces of a brand: the neutral slate ramp, or a tinted
/// variant of it.
pub open spec fn brand_surfaces(brand: Brand) -> (Color, Color, Color) {
    match brand {
        Brand::Mango => (Color::Rgb(17, 16, 13), Color::Rgb(22, 21, 17), Color::Rgb(27, 25, 21)),
        Brand::Pitahaya => (Color::Rgb(18, 12, 13), Color::Rgb(24, 17, 18), Color::Rgb(28, 21, 22)),
        Brand::Balandra => (Color::Rgb(14, 13, 18), Color::Rgb(19, 17, 24), Color::Rgb(24, 21, 29)),
        _ => (Color::Rgb(10, 12, 16), Color::Rgb(15, 18, 24), Color::Rgb(20, 23, 31)),
    }
}

/// The accents of a brand: primary, primary light, primary background and
/// secondary.
pub open spec fn brand_accents(brand: Brand) -> (Color, Color, Color, Color) {
    match brand {
        Brand::Tropical => (
            Color::Rgb(66, 133, 244),
            Color::Rgb(138, 180, 248),
            Color::Rgb(24, 40, 72),
            Color::Rgb(197, 169, 245),
        ),
        Brand::Mango => (
            Color::Rgb(255, 179, 71),
            Color::Rgb(255, 204, 128),
            Color::Rgb(255, 243, 224),
            Color::Rgb(240, 230, 140),
        ),
        Brand::Ocean => (
            Color::Rgb(79, 164, 216),
            Color::Rgb(144, 202, 249),
            Color::Rgb(227, 242, 253),
            Color::Rgb(128, 203, 196),
        ),
        Brand::Pitahaya => (
            Color::Rgb(255, 36, 0),
            Color::Rgb(255, 92, 77),
            Color::Rgb(255, 240, 240),
            Color::Rgb(46, 139, 87),
        ),
        Brand::Papaya => (
            Color::Rgb(255, 138, 101),
            Color::Rgb(255, 171, 145),
            Color::Rgb(251, 233, 231),
            Color::Rgb(255, 213, 79),
        ),
        Brand::Balandra => (
            Color::Rgb(168, 85, 247),
            Color::Rgb(192, 132, 252),
            Color::Rgb(42, 21, 62),
            Color::Rgb(225, 29, 72),
        ),
    }
}

/// The theme of a brand: its surfaces and accents, and the fixed slots that
/// every brand shares.
pub open spec fn palette(brand: Brand) -> Theme {
    let surfaces = brand_surfaces(brand);
    let accents = brand_accents(brand);
    Theme {
        surface_0: surfaces.0,
        surface_1: surfaces.1,
        surface_2: surfaces.2,
        surface_3: Color::Rgb(26, 30, 38),
        surface_4: Color::Rgb(33, 37, 46),
        surface_5: Color::Rgb(41, 46, 56),
        surface_6: Color::Rgb(50, 56, 69),
        text_primary: Color::Rgb(235, 235, 235),
        text_secondary: Color::Rgb(166, 166, 166),
        text_tertiary: Color::Rgb(102, 102, 102),
        text_disabled: Color::Rgb(51, 51, 51),
        primary: accents.0,
        primary_light: accents.1,
        primary_bg: accents.2,
        secondary: accents.3,
        success: Color::Rgb(52, 168, 83),
        success_light: Color::Rgb(129, 201, 149),
        warning: Color::Rgb(251, 191, 36),
        danger: Color::Rgb(242, 139, 130),
        info: Color::Rgb(96, 165, 250),
        border_default: Color::Rgb(33, 37, 46),
        border_subtle: Color::Rgb(20, 23, 31),
    }
}

impl Theme {
    /// The theme of a brand.
    pub fn from_brand(brand: Brand) -> (t: Theme)
        ensures
            t == palette(brand),
    {
        let text_primary = Color::Rgb(235, 235, 235);
        let text_secondary = Color::Rgb(166, 166, 166);
        let text_tertiary = Color::Rgb(102, 102, 102);
        let text_disabled = Color::Rgb(51, 51, 51);
        let success = Color::Rgb(52, 168, 83);
        let success_light = Color::Rgb(129, 201, 149);
        let warning = Color::Rgb(251, 191, 36);
        let danger = Color::Rgb(242, 139, 130);
        let info = Color::Rgb(96, 165, 250);
        let border_default = Color::Rgb(33, 37, 46);
        let border_subtle = Color::Rgb(20, 23, 31);

        let s0 = Color::Rgb(10, 12, 16);
        let s1 = Color::Rgb(15, 18, 24);
        let s2 = Color::Rgb(20, 23, 31);
        let s3 = Color::Rgb(26, 30, 38);
        let s4 = Color::Rgb(33, 37, 46);
        let s5 = Color::Rgb(41, 46, 56);
        let s6 = Color::Rgb(50, 56, 69);

        match brand {
            Brand::Tropical => Theme {
                surface_0: s0,
                surface_1: s1,
                surface_2: s2,
                surface_3: s3,
                surface_4: s4,
                surface_5: s5,
                surface_6: s6,
                text_primary,
                text_secondary,
                text_tertiary,
                text_disabled,
                primary: Color::Rgb(66, 133, 244),
                primary_light: Color::Rgb(138, 180, 248),
                primary_bg: Color::Rgb(24, 40, 72),
                secondary: Color::Rgb(197, 169, 245),
                success,
                success_light,
                warning,
                danger,
                info,
                border_default,
                border_subtle,
            },
            Brand::Mango => Theme {
                surface_0: Color::Rgb(17, 16, 13),
                surface_1: Color::Rgb(22, 21, 17),
                surface_2: Color::Rgb(27, 25, 21),
                surface_3: s3,
                surface_4: s4,
                surface_5: s5,
                surface_6: s6,
                text_primary,
                text_secondary,
                text_tertiary,
                text_disabled,
                primary: Color::Rgb(255, 179, 71),
                primary_light: Color::Rgb(255, 204, 128),
                primary_bg: Color::Rgb(255, 243, 224),
                secondary: Color::Rgb(240, 230, 140),
                success,
                success_light,
                warning,
                danger,
                info,
                border_default,
                border_subtle,
            },
            Brand::Ocean => Theme {
                surface_0: s0,
                surface_1: s1,
                surface_2: s2,
                surface_3: s3,
                surface_4: s4,
                surface_5: s5,
                surface_6: s6,
                text_primary,
                text_secondary,
                text_tertiary,
                text_disabled,
                primary: Color::Rgb(79, 164, 216),
                primary_light: Color::Rgb(144, 202, 249),
                primary_bg: Color::Rgb(227, 242, 253),
                secondary: Color::Rgb(128, 203, 196),
                success,
                success_light,
                warning,
                danger,
                info,
                border_default,
                border_subtle,
            },
            Brand::Pitahaya => Theme {
                surface_0: Color::Rgb(18, 12, 13),
                surface_1: Color::Rgb(24, 17, 18),
                surface_2: Color::Rgb(28, 21, 22),
                surface_3: s3,
                surface_4: s4,
                surface_5: s5,
                surface_6: s6,
                text_primary,
                text_secondary,
                text_tertiary,
                text_disabled,
                primary: Color::Rgb(255, 36, 0),
                primary_light: Color::Rgb(255, 92, 77),
                primary_bg: Color::Rgb(255, 240, 240),
                secondary: Color::Rgb(46, 139, 87),
                success,
                success_light,
                warning,
                danger,
                info,
                border_default,
                border_subtle,
            },
            Brand::Papaya => Theme {
                surface_0: s0,
                surface_1: s1,
                surface_2: s2,
                surface_3: s3,
                surface_4: s4,
                surface_5: s5,
                surface_6: s6,
                text_primary,
                text_secondary,
                text_tertiary,
                text_disabled,
                primary: Color::Rgb(255, 138, 101),
                primary_light: Color::Rgb(255, 171, 145),
                primary_bg: Color::Rgb(251, 233, 231),
                secondary: Color::Rgb(255, 213, 79),
                success,
                success_light,
                warning,
                danger,
                info,
                border_default,
                border_subtle,
            },
            Brand::Balandra => Theme {
                surface_0: Color::Rgb(14, 13, 18),
                surface_1: Color::Rgb(19, 17, 24),
                surface_2: Color::Rgb(24, 21, 29),
                surface_3: s3,
                surface_4: s4,
                surface_5: s5,
                surface_6: s6,
                text_primary,
                text_secondary,
                text_tertiary,
                text_disabled,
                primary: Color::Rgb(168, 85, 247),
                primary_light: Color::Rgb(192, 132, 252),
                primary_bg: Color::Rgb(42, 21, 62),
                secondary: Color::Rgb(225, 29, 72),
                success,
                success_light,
                warning,
                danger,
                info,
                border_default,
                border_subtle,
            },
        }
    }

    /// The style of primary text.
    #[verifier::allow_in_spec]
    pub fn text(&self) -> Style
        returns
            Style::new().fg(self.text_primary),
    {
        Style::new().fg(self.text_primary)
    }

    /// The style of secondary text.
    #[verifier::allow_in_spec]
    pub fn text_dim(&self) -> Style
        returns
            Style::new().fg(self.text_secondary),
    {
        Style::new().fg(self.text_secondary)
    }

    /// The style of tertiary, muted text.
    #[verifier::allow_in_spec]
    pub fn text_muted(&self) -> Style
        returns
            Style::new().fg(self.text_tertiary),
    {
        Style::new().fg(self.text_tertiary)
    }

    /// The style of disabled text.
    #[verifier::allow_in_spec]
    pub fn text_disabled(&self) -> Style
        returns
            Style::new().fg(self.text_disabled),
    {
        Style::new().fg(self.text_disabled)
    }

    /// The style of accented text: primary colour, bold.
    #[verifier::allow_in_spec]
    pub fn accent(&self) -> Style
        returns
            Style::new().fg(self.primary).add_modifier(BOLD),
    {
        Style::new().fg(self.primary).add_modifier(BOLD)
    }

    /// The style of lightly accented text.
    #[verifier::allow_in_spec]
    pub fn accent_light(&self) -> Style
        returns
            Style::new().fg(self.primary_light),
    {
        Style::new().fg(self.primary_light)
    }

    /// The style of text in the secondary accent.
    #[verifier::allow_in_spec]
    pub fn accent_secondary(&self) -> Style
        returns
            Style::new().fg(self.secondary),
    {
        Style::new().fg(self.secondary)
    }

    /// The style of success text.
    #[verifier::allow_in_spec]
    pub fn success(&self) -> Style
        returns
            Style::new().fg(self.success_light),
    {
        Style::new().fg(self.success_light)
    }

    /// The style of warning text.
    #[verifier::allow_in_spec]
    pub fn warning(&self) -> Style
        returns
            Style::new().fg(self.warning),
    {
        Style::new().fg(self.warning)
    }

    /// The style of danger text.
    #[verifier::allow_in_spec]
    pub fn danger(&self) -> Style
        returns
            Style::new().fg(self.danger),
    {
        Style::new().fg(self.danger)
    }

    /// The style of informational text.
    #[verifier::allow_in_spec]
    pub fn info(&self) -> Style
        returns
            Style::new().fg(self.info),
    {
        Style::new().fg(self.info)
    }

    /// The status bar: near-black bold text on the primary colour.
    #[verifier::allow_in_spec]
    pub fn status_bar(&self) -> Style
        returns
            Style::new().bg(self.primary).fg(ink()).add_modifier(BOLD),
    {
        Style::new().bg(self.primary).fg(ink()).add_modifier(BOLD)
    }

    /// A selected row: near-black bold text on the primary colour.
    #[verifier::allow_in_spec]
    pub fn row_selected(&self) -> Style
        returns
            Style::new().bg(self.primary).fg(ink()).add_modifier(BOLD),
    {
        Style::new().bg(self.primary).fg(ink()).add_modifier(BOLD)
    }

    /// An active row: light primary text on a raised surface.
    #[verifier::allow_in_spec]
    pub fn row_active(&self) -> Style
        returns
            Style::new().bg(self.surface_3).fg(self.primary_light),
    {
        Style::new().bg(self.surface_3).fg(self.primary_light)
    }

    /// A border.
    #[verifier::allow_in_spec]
    pub fn border(&self) -> Style
        returns
            Style::new().fg(self.border_default),
    {
        Style::new().fg(self.border_default)
    }

    /// The border of the focused block.
    #[verifier::allow_in_spec]
    pub fn border_active(&self) -> Style
        returns
            Style::new().fg(self.primary),
    {
        Style::new().fg(self.primary)
    }

    /// The title of a block.
    #[verifier::allow_in_spec]
    pub fn block_title(&self) -> Style
        returns
            Style::new().fg(self.text_tertiary),
    {
        Style::new().fg(self.text_tertiary)
    }

    /// A spinner: bold warning colour.
    #[verifier::allow_in_spec]
    pub fn spinner(&self) -> Style
        returns
            Style::new().fg(self.warning).add_modifier(BOLD),
    {
        Style::new().fg(self.warning).add_modifier(BOLD)
    }

    /// A clean working tree.
    #[verifier::allow_in_spec]
    pub fn git_clean(&self) -> Style
        returns
            Style::new().fg(self.success_light),
    {
        Style::new().fg(self.success_light)
    }

    /// A dirty working tree.
    #[verifier::allow_in_spec]
    pub fn git_dirty(&self) -> Style
        returns
            Style::new().fg(self.danger),
    {
        Style::new().fg(self.danger)
    }

    /// A modified file.
    #[verifier::allow_in_spec]
    pub fn git_modified(&self) -> Style
        returns
            Style::new().fg(self.warning),
    {
        Style::new().fg(self.warning)
    }

    /// An untracked file.
    #[verifier::allow_in_spec]
    pub fn git_untracked(&self) -> Style
        returns
            Style::new().fg(self.success_light),
    {
        Style::new().fg(self.success_light)
    }

    /// A deleted file.
    #[verifier::allow_in_spec]
    pub fn git_deleted(&self) -> Style
        returns
            Style::new().fg(self.danger),
    {
        Style::new().fg(self.danger)
    }

    /// Commits ahead of the upstream.
    #[verifier::allow_in_spec]
    pub fn git_ahead(&self) -> Style
        returns
            Style::new().fg(self.success_light),
    {
        Style::new().fg(self.success_light)
    }

    /// Commits behind the upstream.
    #[verifier::allow_in_spec]
    pub fn git_behind(&self) -> Style
        returns
            Style::new().fg(self.danger),
    {
        Style::new().fg(self.danger)
    }

    /// Repository statistics.
    #[verifier::allow_in_spec]
    pub fn github_stats(&self) -> Style
        returns
            Style::new().fg(self.primary_light),
    {
        Style::new().fg(self.primary_light)
    }

    /// A link: underlined primary colour.
    #[verifier::allow_in_spec]
    pub fn link(&self) -> Style
        returns
            Style::new().fg(self.primary).add_modifier(UNDERLINED),
    {
        Style::new().fg(self.primary).add_modifier(UNDERLINED)
    }

    /// An input prompt: bold warning colour.
    #[verifier::allow_in_spec]
    pub fn input_prompt(&self) -> Style
        returns
            Style::new().fg(self.warning).add_modifier(BOLD),
    {
        Style::new().fg(self.warning).add_modifier(BOLD)
    }

    /// A label: bold secondary text.
    #[verifier::allow_in_spec]
    pub fn label(&self) -> Style
        returns
            Style::new().fg(self.text_secondary).add_modifier(BOLD),
    {
        Style::new().fg(self.text_secondary).add_modifier(BOLD)
    }

    /// A commit message: italic tertiary text.
    #[verifier::allow_in_spec]
    pub fn commit_msg(&self) -> Style
        returns
            Style::new().fg(self.text_tertiary).add_modifier(ITALIC),
    {
        Style::new().fg(self.text_tertiary).add_modifier(ITALIC)
    }

    /// A project name: bold primary colour.
    #[verifier::allow_in_spec]
    pub fn project_name(&self) -> Style
        returns
            Style::new().fg(self.primary).add_modifier(BOLD),
    {
        Style::new().fg(self.primary).add_modifier(BOLD)
    }

    /// A branch name: bold secondary accent.
    #[verifier::allow_in_spec]
    pub fn branch_name(&self) -> Style
        returns
            Style::new().fg(self.secondary).add_modifier(BOLD),
    {
        Style::new().fg(self.secondary).add_modifier(BOLD)
    }

    // Styled pieces of text.

    /// A status dot that is on: bold, in the success colour.
    pub fn dot_on(&self) -> (s: Span)
        ensures
            s@ == (DOT_ON@, Style::new().fg(self.success_light).add_modifier(BOLD)),
    {
        Span::styled(DOT_ON, Style::new().fg(self.success_light).add_modifier(BOLD))
    }

    /// A warning status dot.
    pub fn dot_warn(&self) -> (s: Span)
        ensures
            s@ == (DOT_WARN@, Style::new().fg(self.warning)),
    {
        Span::styled(DOT_WARN, Style::new().fg(self.warning))
    }

    /// An error status dot.
    pub fn dot_err(&self) -> (s: Span)
        ensures
            s@ == (DOT_ERR@, Style::new().fg(self.danger)),
    {
        Span::styled(DOT_ERR, Style::new().fg(self.danger))
    }

    /// An informational status dot.
    pub fn dot_info(&self) -> (s: Span)
        ensures
            s@ == (DOT_INFO@, Style::new().fg(self.info)),
    {
        Span::styled(DOT_INFO, Style::new().fg(self.info))
    }

    /// A status dot that is off.
    pub fn dot_off(&self) -> (s: Span)
        ensures
            s@ == (DOT_OFF@, Style::new().fg(self.text_disabled)),
    {
        Span::styled(DOT_OFF, Style::new().fg(self.text_disabled))
    }

    /// The style of a key in a key hint: bold secondary text on a raised
    /// surface.
    #[verifier::allow_in_spec]
    pub fn key_style(&self) -> Style
        returns
            Style::new().fg(self.text_secondary).bg(self.surface_4).add_modifier(BOLD),
    {
        Style::new().fg(self.text_secondary).bg(self.surface_4).add_modifier(BOLD)
    }

    /// A key, drawn as a key hint.
    pub fn key_hint(&self, key: &str) -> (s: Span)
        ensures
            s@ == (key@, self.key_style()),
    {
        Span::styled(key, self.key_style())
    }

    /// `[key] label` followed by a gap, for a list of key hints.
    pub fn key_hint_segment(&self, key: &str, label: &str) -> (r: Vec<Span>)
        ensures
            spans_view(r@) == seq![
                ("["@, self.text_muted()),
                (key@, self.key_style()),
                ("]"@, self.text_muted()),
                (" "@, Style::new()),
                (label@, self.text_disabled()),
                ("  "@, Style::new()),
            ],
    {
        let r = vec![
            Span::styled("[", self.text_muted()),
            self.key_hint(key),
            Span::styled("]", self.text_muted()),
            Span::styled(" ", Style::new()),
            Span::styled(label, self.text_disabled()),
            Span::styled("  ", Style::new()),
        ];
        assert(spans_view(r@) =~= seq![
            ("["@, self.text_muted()),
            (key@, self.key_style()),
            ("]"@, self.text_muted()),
            (" "@, Style::new()),
            (label@, self.text_disabled()),
            ("  "@, Style::new()),
        ]);
        r
    }

    /// The style of a value in the status bar, and of a key there before
    /// underlining.
    #[verifier::allow_in_spec]
    pub fn status_value_style(&self) -> Style
        returns
            Style::new().bg(self.primary).fg(ink()).add_modifier(BOLD),
    {
        Style::new().bg(self.primary).fg(ink()).add_modifier(BOLD)
    }

    /// The spans of `[ label: value ]` in the status bar.
    pub open spec fn status_seg_view(self, label: Seq<char>, value: Seq<char>) -> Seq<(Seq<char>, Style)> {
        seq![
            ("[ "@, self.status_bar()),
            (label, self.status_bar().add_modifier(BOLD)),
            (": "@, self.status_bar()),
            (value, self.status_value_style()),
            (" ]"@, self.status_bar()),
            ("  "@, self.status_bar()),
        ]
    }

    /// The spans of the segments of all (label, value) pairs, in order.
    pub open spec fn status_segs_view(self, pairs: Seq<(Seq<char>, Seq<char>)>) -> Seq<(Seq<char>, Style)>
        decreases pairs.len(),
    {
        if pairs.len() == 0 {
            seq![]
        } else {
            self.status_segs_view(pairs.drop_last()) + self.status_seg_view(pairs.last().0, pairs.last().1)
        }
    }

    /// The spans of `[key] label` in the status bar.
    pub open spec fn key_seg_view(self, key: Seq<char>, label: Seq<char>) -> Seq<(Seq<char>, Style)> {
        seq![
            ("["@, self.status_bar()),
            (key, self.status_value_style().add_modifier(UNDERLINED)),
            ("] "@, self.status_bar()),
            (label, self.status_bar()),
            ("  "@, self.status_bar()),
        ]
    }

    /// The spans of the key hints of all (key, label) pairs, in order.
    pub open spec fn key_segs_view(self, pairs: Seq<(Seq<char>, Seq<char>)>) -> Seq<(Seq<char>, Style)>
        decreases pairs.len(),
    {
        if pairs.len() == 0 {
            seq![]
        } else {
            self.key_segs_view(pairs.drop_last()) + self.key_seg_view(pairs.last().0, pairs.last().1)
        }
    }

    /// `[ label: value ]` and a gap, in the colours of the status bar.
    pub fn status_seg(&self, label: &str, value: &str) -> (r: Vec<Span>)
        ensures
            spans_view(r@) == self.status_seg_view(label@, value@),
    {
        let r = vec![
            Span::styled("[ ", self.status_bar()),
            Span::styled(label, self.status_bar().add_modifier(BOLD)),
            Span::styled(": ", self.status_bar()),
            Span::styled(value, self.status_value_style()),
            Span::styled(" ]", self.status_bar()),
            Span::styled("  ", self.status_bar()),
        ];
        assert(spans_view(r@) =~= self.status_seg_view(label@, value@));
        r
    }

    /// The status bar: the (label, value) segments on the left, a gap, then
    /// the (key, label) hints on the right.
    pub fn status_bar_line(&self, left: Vec<(&str, &str)>, right: Vec<(&str, &str)>) -> (l: Line)
        ensures
            l@ == self.status_segs_view(str_pairs(left@)) + seq![("    "@, self.status_bar())]
                + self.key_segs_view(str_pairs(right@)),
    {
        let mut spans: Vec<Span> = Vec::new();
        let mut i: usize = 0;
        while i < left.len()
            invariant
                i <= left.len(),
                spans_view(spans@) == self.status_segs_view(str_pairs(left@).take(i as int)),
            decreases left.len() - i,
        {
            let (label, value) = left[i];
            let mut seg = self.status_seg(label, value);
            let ghost before = spans@;
            let ghost seg_spans = seg@;
            spans.append(&mut seg);
            proof {
                assert(str_pairs(left@).take(i + 1).drop_last() =~= str_pairs(left@).take(i as int));
                assert(spans_view(spans@) =~= spans_view(before) + spans_view(seg_spans));
            }
            i = i + 1;
        }
        assert(str_pairs(left@).take(left@.len() as int) =~= str_pairs(left@));
        let ghost head = spans_view(spans@);
        spans.push(Span::styled("    ", self.status_bar()));
        assert(spans_view(spans@) =~= head + seq![("    "@, self.status_bar())]);
        let ghost mid = spans_view(spans@);
        let mut j: usize = 0;
        while j < right.len()
            invariant
                j <= right.len(),
                spans_view(spans@) == mid + self.key_segs_view(str_pairs(right@).take(j as int)),
            decreases right.len() - j,
        {
            let (key, label) = right[j];
            let ghost before = spans@;
            spans.push(Span::styled("[", self.status_bar()));
            spans.push(Span::styled(key, self.status_value_style().add_modifier(UNDERLINED)));
            spans.push(Span::styled("] ", self.status_bar()));
            spans.push(Span::styled(label, self.status_bar()));
            spans.push(Span::styled("  ", self.status_bar()));
            proof {
                assert(str_pairs(right@).take(j + 1).drop_last() =~= str_pairs(right@).take(j as int));
                assert(spans_view(spans@) =~= spans_view(before) + self.key_seg_view(key@, label@));
            }
            j = j + 1;
        }
        assert(str_pairs(right@).take(right@.len() as int) =~= str_pairs(right@));
        Line::from_spans(spans)
    }

    /// An item of a navigation list: accented with an arrow when active,
    /// muted and indented otherwise.
    pub fn nav_item(&self, label: &str, active: bool) -> (l: Line)
        ensures
            active ==> l@ == seq![(NAV_ACTIVE_PREFIX@, self.accent()), (label@, self.accent())],
            !active ==> l@ == seq![(NAV_IDLE_PREFIX@, Style::new()), (label@, self.text_muted())],
    {
        if active {
            let v = vec![Span::styled(NAV_ACTIVE_PREFIX, self.accent()), Span::styled(label, self.accent())];
            let l = Line::from_spans(v);
            assert(l@ =~= seq![(NAV_ACTIVE_PREFIX@, self.accent()), (label@, self.accent())]);
            l
        } else {
            let v = vec![Span::styled(NAV_IDLE_PREFIX, Style::new()), Span::styled(label, self.text_muted())];
            let l = Line::from_spans(v);
            assert(l@ =~= seq![(NAV_IDLE_PREFIX@, Style::new()), (label@, self.text_muted())]);
            l
        }
    }

    /// The style of the cells of a progress bar at a percentage: success
    /// from 80, primary from 40, disabled below.
    #[verifier::allow_in_spec]
    pub fn progress_style(&self, pct: u8) -> Style
        returns
            (if pct >= 80 {
                Style::new().fg(self.success_light)
            } else if pct >= 40 {
                Style::new().fg(self.primary)
            } else {
                Style::new().fg(self.text_disabled)
            }),
    {
        if pct >= 80 {
            Style::new().fg(self.success_light)
        } else if pct >= 40 {
            Style::new().fg(self.primary)
        } else {
            Style::new().fg(self.text_disabled)
        }
    }

    /// A progress bar of `total` cells, the first `filled` of them full,
    /// followed by the percentage right-aligned in three places.
    pub fn progress_bar(&self, filled: u8, total: u8, pct: u8) -> (r: Vec<Span>)
        ensures
            spans_view(r@) == seq![
                (progress_cells(filled, total), self.progress_style(pct)),
                (" "@ + pad_left(decimal(pct as nat), 3) + "%"@, self.text_muted()),
            ],
    {
        let mut bar = String::new();
        let mut i: u8 = 0;
        while i < total
            invariant
                i <= total,
                bar@ == progress_cells(filled, i),
            decreases total - i,
        {
            if i < filled {
                push_char(&mut bar, BAR_FULL);
            } else {
                push_char(&mut bar, BAR_LIGHT);
            }
            i = i + 1;
            assert(bar@ =~= progress_cells(filled, i));
        }
        let digits = decimal_string(pct as u64);
        let padded = pad_left_string(digits.as_str(), 3);
        let mut pct_str = String::from_str(" ");
        pct_str.append(padded.as_str());
        pct_str.append("%");
        let r = vec![
            Span::styled_string(bar, self.progress_style(pct)),
            Span::styled_string(pct_str, self.text_muted()),
        ];
        assert(spans_view(r@) =~= seq![
            (progress_cells(filled, total), self.progress_style(pct)),
            (" "@ + pad_left(decimal(pct as nat), 3) + "%"@, self.text_muted()),
        ]);
        r
    }

    /// The text and style of the input cursor at a tick: the block in the
    /// primary colour for `DUR_BASE_TICKS` ticks, then a blank for as many.
    pub open spec fn cursor_view(self, tick_count: u8) -> (Seq<char>, Style) {
        if (tick_count / DUR_BASE_TICKS) % 2 == 0 {
            (CURSOR_BLOCK@, Style::new().fg(self.primary))
        } else {
            (" "@, Style::new())
        }
    }

    /// The blinking cursor of an input at a tick.
    pub fn cursor_span(&self, tick_count: u8) -> (s: Span)
        ensures
            s@ == self.cursor_view(tick_count),
    {
        let visible = (tick_count / DUR_BASE_TICKS) % 2 == 0;
        if visible {
            Span::styled(CURSOR_BLOCK, Style::new().fg(self.primary))
        } else {
            Span::raw(" ")
        }
    }

    /// The spinner at a tick: each frame stays for `DUR_FAST_TICKS` ticks.
    pub fn spinner_span(&self, tick_count: u8) -> (s: Span)
        ensures
            s@ == (spinner_frame(((tick_count / DUR_FAST_TICKS) as usize) % SPINNER_FRAME_COUNT)@, self.spinner()),
    {
        let frame = spinner_frame((tick_count / DUR_FAST_TICKS) as usize % SPINNER_FRAME_COUNT);
        Span::styled(frame, self.spinner())
    }

    /// An item of a tree: the muted prefix, then the label, highlighted when
    /// active.
    pub fn tree_item(&self, label: &str, prefix: &str, active: bool) -> (l: Line)
        ensures
            l@ == seq![
                (prefix@, self.text_muted()),
                (label@, if active { Style::new().fg(self.primary).bg(self.primary_bg) } else { self.text_dim() }),
            ],
    {
        let prefix_style = self.text_muted();
        let label_style = if active {
            Style::new().fg(self.primary).bg(self.primary_bg)
        } else {
            self.text_dim()
        };
        let v = vec![Span::styled(prefix, prefix_style), Span::styled(label, label_style)];
        let l = Line::from_spans(v);
        assert(l@ =~= seq![(prefix@, prefix_style), (label@, label_style)]);
        l
    }

    /// The header of a panel: `[ label ]` in the colours of the status bar.
    pub fn panel_header_line(&self, label: &str) -> (l: Line)
        ensures
            l@ == seq![("[ "@ + label@ + " ]"@, self.status_value_style())],
    {
        let mut text = String::from_str("[ ");
        text.append(label);
        text.append(" ]");
        Line::from_span(Span::styled_string(text, self.status_value_style()))
    }

    /// A shell prompt `user:path$ input` followed by the blinking cursor.
    pub fn prompt_line(&self, user: &str, path: &str, input: &str, tick_count: u8) -> (l: Line)
        ensures
            l@ == seq![
                (user@, self.success()),
                (":"@, self.text_muted()),
                (path@, self.accent()),
                ("$ "@, self.text_muted()),
                (input@, self.text()),
                self.cursor_view(tick_count),
            ],
    {
        let mut spans = vec![
            Span::styled(user, self.success()),
            Span::styled(":", self.text_muted()),
            Span::styled(path, self.accent()),
            Span::styled("$ ", self.text_muted()),
            Span::styled(input, self.text()),
        ];
        spans.push(self.cursor_span(tick_count));
        let l = Line::from_spans(spans);
        assert(l@ =~= seq![
            (user@, self.success()),
            (":"@, self.text_muted()),
            (path@, self.accent()),
            ("$ "@, self.text_muted()),
            (input@, self.text()),
            self.cursor_view(tick_count),
        ]);
        l
    }
}

/// The fixed semantic slots — the upper surfaces, the text ramp, the
/// semantic colours and the borders — are the same for every brand.
pub proof fn lemma_fixed_tokens_brand_agnostic(b1: Brand, b2: Brand)
    ensures
        palette(b1).surface_3 == palette(b2).surface_3,
        palette(b1).surface_4 == palette(b2).surface_4,
        palette(b1).surface_5 == palette(b2).surface_5,
        palette(b1).surface_6 == palette(b2).surface_6,
        palette(b1).text_primary == palette(b2).text_primary,
        palette(b1).text_secondary == palette(b2).text_secondary,
        palette(b1).text_tertiary == palette(b2).text_tertiary,
        palette(b1).text_disabled == palette(b2).text_disabled,
        palette(b1).success == palette(b2).success,
        palette(b1).success_light == palette(b2).success_light,
        palette(b1).warning == palette(b2).warning,
        palette(b1).danger == palette(b2).danger,
        palette(b1).info == palette(b2).info,
        palette(b1).border_default == palette(b2).border_default,
        palette(b1).border_subtle == palette(b2).border_subtle,
{
}

/// The brands without a tinted variant use the surface ramp of the master
/// brand; the default border is the fourth surface, and the subtle border
/// the second surface of that ramp.
pub proof fn lemma_slate_surfaces(b: Brand)
    ensures
        b == Brand::Ocean || b == Brand::Papaya ==> brand_surfaces(b) == brand_surfaces(Brand::Tropical),
        palette(b).border_default == palette(b).surface_4,
        palette(b).border_subtle == palette(Brand::Tropical).surface_2,
{
}

/// The status bar and a selected row are drawn alike.
pub proof fn lemma_status_bar_is_selected_row(t: Theme)
    ensures
        t.status_bar() == t.row_selected(),
{
}

/// The cursor blinks with a period of twice `DUR_BASE_TICKS` ticks.
pub proof fn lemma_cursor_period(t: Theme, tick: u8)
    requires
        tick + 2 * DUR_BASE_TICKS <= u8::MAX,
    ensures
        t.cursor_view(tick) == t.cursor_view((tick + 2 * DUR_BASE_TICKS) as u8),
{
    let n = tick / DUR_BASE_TICKS;
    assert(((tick + 8) as u8) / 4 == n + 2);
    assert((n + 2) % 2 == n % 2);
}

/// The spinner shows its frames in turn, each for `DUR_FAST_TICKS` ticks,
/// and starts over after the last.
pub proof fn lemma_spinner_period(tick: u8)
    requires
        tick + (SPINNER_FRAME_COUNT as int) * DUR_FAST_TICKS <= u8::MAX,
    ensures
        ((tick / DUR_FAST_TICKS) as usize) % SPINNER_FRAME_COUNT == ((((tick
            + SPINNER_FRAME_COUNT * DUR_FAST_TICKS) as u8) / DUR_FAST_TICKS) as usize) % SPINNER_FRAME_COUNT,
        tick % DUR_FAST_TICKS == 1 ==> ((tick / DUR_FAST_TICKS) as usize) == ((((tick - 1) as u8) / DUR_FAST_TICKS) as usize),
{
    let n = tick / 2;
    assert(((tick + 20) as u8) / 2 == n + 10);
    assert((n + 10) % 10 == n % 10);
}

/// The text of each (key, value) pair of string slices.
pub open spec fn str_pairs(v: Seq<(&str, &str)>) -> Seq<(Seq<char>, Seq<char>)> {
    v.map_values(|p: (&str, &str)| (p.0@, p.1@))
}

/// The cells of a progress bar of `total` cells, the first `filled` full.
pub open spec fn progress_cells(filled: u8, total: u8) -> Seq<char> {
    Seq::new(total as nat, |i: int| if i < filled { BAR_FULL } else { BAR_LIGHT })
}

} // verus!
