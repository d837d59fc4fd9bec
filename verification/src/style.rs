//! Styling and theming: colors, text modifiers, the theme palette every
//! component draws from, and the stylesheet that maps semantic roles to
//! partial styles.

use vstd::prelude::*;

use crate::focus::same_id;
use crate::geometry::Padding;

verus! {

/// Line-drawing style for bordered components.
#[derive(Clone, Copy, Debug, PartialEq, Eq, Structural)]
pub enum BorderStyle {
    /// Rounded corners (`╭╮╰╯`) with light edges.
    Rounded,
    /// Square corners (`┌┐└┘`) with light edges.
    Plain,
    /// Heavy corners and edges (`┏┓┗┛━┃`).
    Thick,
    /// No border; drawn as blank spaces.
    Hidden,
}

impl Default for BorderStyle {
    fn default() -> (s: Self)
        ensures
            s == BorderStyle::Rounded,
    {
        BorderStyle::Rounded
    }
}

/// The resolved corner and edge glyphs for a [`BorderStyle`].
#[derive(Clone, Copy, Debug, PartialEq, Eq, Structural)]
pub struct BorderGlyphs {
    /// Top-left corner glyph.
    pub top_left: char,
    /// Top-right corner glyph.
    pub top_right: char,
    /// Bottom-left corner glyph.
    pub bottom_left: char,
    /// Bottom-right corner glyph.
    pub bottom_right: char,
    /// Horizontal edge glyph (top and bottom sides).
    pub horizontal: char,
    /// Vertical edge glyph (left and right sides).
    pub vertical: char,
}

/// The glyphs of `style`: corners clockwise from the top left, then the
/// horizontal and vertical edges.
pub open spec fn glyphs_of(style: BorderStyle) -> BorderGlyphs {
    match style {
        BorderStyle::Rounded => BorderGlyphs {
            top_left: '╭',
            top_right: '╮',
            bottom_left: '╰',
            bottom_right: '╯',
            horizontal: '─',
            vertical: '│',
        },
        BorderStyle::Plain => BorderGlyphs {
            top_left: '┌',
            top_right: '┐',
            bottom_left: '└',
            bottom_right: '┘',
            horizontal: '─',
            vertical: '│',
        },
        BorderStyle::Thick => BorderGlyphs {
            top_left: '┏',
            top_right: '┓',
            bottom_left: '┗',
            bottom_right: '┛',
            horizontal: '━',
            vertical: '┃',
        },
        BorderStyle::Hidden => BorderGlyphs {
            top_left: ' ',
            top_right: ' ',
            bottom_left: ' ',
            bottom_right: ' ',
            horizontal: ' ',
            vertical: ' ',
        },
    }
}

impl BorderGlyphs {
    fn new(
        top_left: char,
        top_right: char,
        bottom_left: char,
        bottom_right: char,
        horizontal: char,
        vertical: char,
    ) -> (g: Self)
        ensures
            g == (BorderGlyphs {
                top_left,
                top_right,
                bottom_left,
                bottom_right,
                horizontal,
                vertical,
            }),
    {
        BorderGlyphs { top_left, top_right, bottom_left, bottom_right, horizontal, vertical }
    }
}

impl BorderStyle {
    /// The six line-drawing glyphs (corners, horizontal, vertical) for this style.
    pub fn glyphs(self) -> (g: BorderGlyphs)
        ensures
            g == glyphs_of(self),
    {
        match self {
            BorderStyle::Rounded => BorderGlyphs::new('╭', '╮', '╰', '╯', '─', '│'),
            BorderStyle::Plain => BorderGlyphs::new('┌', '┐', '└', '┘', '─', '│'),
            BorderStyle::Thick => BorderGlyphs::new('┏', '┓', '┗', '┛', '━', '┃'),
            BorderStyle::Hidden => BorderGlyphs::new(' ', ' ', ' ', ' ', ' ', ' '),
        }
    }
}

/// Generic semantic status roles shared by notifications, validation, and
/// application-defined views.
#[derive(Clone, Copy, Debug, PartialEq, Eq, Structural)]
pub enum SemanticRole {
    /// Successful or completed state.
    Success,
    /// Warning or caution state.
    Warning,
    /// Error, destructive, or dangerous state.
    Danger,
    /// Informational or neutral status.
    Info,
}

/// A semantic element a component styles itself as, kept a closed enum so a
/// typo is a compile error.
#[derive(Clone, Copy, Debug, PartialEq, Eq, Structural)]
pub enum Role {
    /// A bordered panel / framed container.
    Panel,
    /// A markdown heading.
    Heading,
    /// A hyperlink or bare URL.
    Link,
    /// Inline `code` spans.
    InlineCode,
    /// Emphasized text.
    Emphasis,
    /// Strong text.
    Strong,
    /// Struck-through text.
    Strikethrough,
    /// A list item's bullet or number marker.
    ListMarker,
    /// A task-list checkbox marker.
    TaskMarker,
    /// A thematic break / horizontal rule.
    Rule,
    /// The glyph marking an inline image placeholder.
    ImageMarker,
}

/// An open semantic style key used by components and host-defined views.
///
/// Applications and companion crates define their own namespaced roles with
/// [`StyleRole::new`]. The static string is an identifier, never terminal
/// output.
#[derive(Clone, Copy, Debug, PartialEq, Eq, Hash)]
pub struct StyleRole(&'static str);

impl StyleRole {
    /// Define a stable, namespaced semantic role.
    pub fn new(name: &'static str) -> (r: Self)
        ensures
            r.name_spec() == name@,
    {
        StyleRole(name)
    }

    /// The text of the role's identifier.
    pub closed spec fn name_spec(self) -> Seq<char> {
        self.0@
    }

    /// Base text and fill of a toast row.
    pub fn toast() -> (r: Self)
        ensures
            r.name_spec() == "tuika.toast"@,
    {
        StyleRole("tuika.toast")
    }

    /// Informational toast accent.
    pub fn toast_info() -> (r: Self)
        ensures
            r.name_spec() == "tuika.toast.info"@,
    {
        StyleRole("tuika.toast.info")
    }

    /// Successful toast accent.
    pub fn toast_success() -> (r: Self)
        ensures
            r.name_spec() == "tuika.toast.success"@,
    {
        StyleRole("tuika.toast.success")
    }

    /// Warning toast accent.
    pub fn toast_warning() -> (r: Self)
        ensures
            r.name_spec() == "tuika.toast.warning"@,
    {
        StyleRole("tuika.toast.warning")
    }

    /// Error toast accent.
    pub fn toast_error() -> (r: Self)
        ensures
            r.name_spec() == "tuika.toast.error"@,
    {
        StyleRole("tuika.toast.error")
    }

    /// Diff block background.
    pub fn diff() -> (r: Self)
        ensures
            r.name_spec() == "tuika.diff"@,
    {
        StyleRole("tuika.diff")
    }

    /// Inserted diff row.
    pub fn diff_added() -> (r: Self)
        ensures
            r.name_spec() == "tuika.diff.added"@,
    {
        StyleRole("tuika.diff.added")
    }

    /// Removed diff row.
    pub fn diff_removed() -> (r: Self)
        ensures
            r.name_spec() == "tuika.diff.removed"@,
    {
        StyleRole("tuika.diff.removed")
    }

    /// Unchanged diff row.
    pub fn diff_context() -> (r: Self)
        ensures
            r.name_spec() == "tuika.diff.context"@,
    {
        StyleRole("tuika.diff.context")
    }

    /// Diff line-number gutter.
    pub fn diff_gutter() -> (r: Self)
        ensures
            r.name_spec() == "tuika.diff.gutter"@,
    {
        StyleRole("tuika.diff.gutter")
    }

    /// Divider between side-by-side diff columns.
    pub fn diff_divider() -> (r: Self)
        ensures
            r.name_spec() == "tuika.diff.divider"@,
    {
        StyleRole("tuika.diff.divider")
    }

    /// Key-cap portion of an action hint.
    pub fn key_hint_key() -> (r: Self)
        ensures
            r.name_spec() == "tuika.key-hint.key"@,
    {
        StyleRole("tuika.key-hint.key")
    }

    /// Label portion of an action hint.
    pub fn key_hint_label() -> (r: Self)
        ensures
            r.name_spec() == "tuika.key-hint.label"@,
    {
        StyleRole("tuika.key-hint.label")
    }

    /// The role's stable identifier.
    pub fn name(self) -> (r: &'static str)
        ensures
            r@ == self.name_spec(),
    {
        self.0
    }
}

/// A terminal color: the reset color, the sixteen ANSI colors, a 24-bit
/// color, or an entry of the 256-color palette.
#[derive(Clone, Copy, Debug, PartialEq, Eq, Hash, Structural)]
pub enum Color {
    /// The terminal's own default.
    Reset,
    /// ANSI black.
    Black,
    /// ANSI red.
    Red,
    /// ANSI green.
    Green,
    /// ANSI yellow.
    Yellow,
    /// ANSI blue.
    Blue,
    /// ANSI magenta.
    Magenta,
    /// ANSI cyan.
    Cyan,
    /// ANSI white (often shown as light gray).
    Gray,
    /// ANSI bright black.
    DarkGray,
    /// ANSI bright red.
    LightRed,
    /// ANSI bright green.
    LightGreen,
    /// ANSI bright yellow.
    LightYellow,
    /// ANSI bright blue.
    LightBlue,
    /// ANSI bright magenta.
    LightMagenta,
    /// ANSI bright cyan.
    LightCyan,
    /// ANSI bright white.
    White,
    /// A 24-bit color.
    Rgb(u8, u8, u8),
    /// An entry of the 256-color palette.
    Indexed(u8),
}

/// A set of text modifiers (bold, italic, underline, ...), held as bits:
/// bold 1, dim 2, italic 4, underlined 8, slow blink 16, rapid blink 32,
/// reversed 64, hidden 128, crossed out 256.
#[derive(Clone, Copy, Debug, PartialEq, Eq, Hash, Structural)]
pub struct Modifier {
    /// The modifier bits.
    pub bits: u16,
}

impl View for Modifier {
    type V = u16;

    /// The modifier bits.
    open spec fn view(&self) -> u16 {
        self.bits
    }
}

impl Modifier {
    /// No modifier.
    pub fn empty() -> (m: Self)
        ensures
            m@ == 0,
    {
        Modifier { bits: 0 }
    }

    /// The modifiers named by `bits`; bits naming no modifier are dropped.
    pub fn from_bits_truncate(bits: u16) -> (m: Self)
        ensures
            m@ == bits & 0x1ff,
    {
        Modifier { bits: bits & 0x1ff }
    }

    /// Bold text.
    pub fn bold() -> (m: Self)
        ensures
            m@ == 1,
    {
        Modifier { bits: 1 }
    }

    /// Dimmed text.
    pub fn dim() -> (m: Self)
        ensures
            m@ == 2,
    {
        Modifier { bits: 2 }
    }

    /// Italic text.
    pub fn italic() -> (m: Self)
        ensures
            m@ == 4,
    {
        Modifier { bits: 4 }
    }

    /// Underlined text.
    pub fn underlined() -> (m: Self)
        ensures
            m@ == 8,
    {
        Modifier { bits: 8 }
    }

    /// Reversed foreground and background.
    pub fn reversed() -> (m: Self)
        ensures
            m@ == 64,
    {
        Modifier { bits: 64 }
    }

    /// Crossed-out text.
    pub fn crossed_out() -> (m: Self)
        ensures
            m@ == 256,
    {
        Modifier { bits: 256 }
    }

    /// The modifier bits.
    pub fn bits(self) -> (r: u16)
        ensures
            r == self@,
    {
        self.bits
    }

    /// Every modifier of either set.
    pub fn union(self, other: Modifier) -> (m: Self)
        ensures
            m@ == self@ | other@,
    {
        Modifier { bits: self.bits | other.bits }
    }

    /// Whether every modifier of `other` is in this set.
    pub fn contains(self, other: Modifier) -> (r: bool)
        ensures
            r == (self@ & other@ == other@),
    {
        self.bits & other.bits == other.bits
    }

    /// Whether the set holds no modifier.
    pub fn is_empty(self) -> (r: bool)
        ensures
            r == (self@ == 0),
    {
        self.bits == 0
    }
}

impl Default for Modifier {
    fn default() -> (m: Self)
        ensures
            m@ == 0,
    {
        Modifier::empty()
    }
}

/// The palette code blocks and markdown prose style themselves from: a few
/// prose roles and the syntax roles a highlighter maps token classes onto.
#[derive(Clone, Copy, Debug, PartialEq, Eq, Structural)]
pub struct CodeTheme {
    /// Heading text.
    pub heading: Color,
    /// Link text and bare URLs.
    pub link: Color,
    /// Background behind inline code and fenced blocks.
    pub background: Color,
    /// Default code text: unclassified tokens and the plain fallback.
    pub text: Color,
    /// Language-tag label above a fenced block.
    pub label: Color,
    /// Keywords and language reserved words.
    pub keyword: Color,
    /// Function and method names.
    pub function: Color,
    /// Type names, traits, and other type-level identifiers.
    pub types: Color,
    /// Constants, literals, and enum-like values.
    pub constant: Color,
    /// String and character literals.
    pub string: Color,
    /// Comments.
    pub comment: Color,
    /// Punctuation, operators, and delimiters.
    pub punctuation: Color,
}

/// The default syntax palette: warm and low-contrast.
pub open spec fn default_code_theme() -> CodeTheme {
    CodeTheme {
        heading: Color::Rgb(235, 230, 230),
        link: Color::Rgb(120, 160, 210),
        background: Color::Rgb(28, 24, 26),
        text: Color::Rgb(210, 205, 205),
        label: Color::Rgb(150, 140, 142),
        keyword: Color::Rgb(210, 120, 90),
        function: Color::Rgb(120, 160, 210),
        types: Color::Rgb(126, 170, 176),
        constant: Color::Rgb(200, 160, 120),
        string: Color::Rgb(150, 180, 140),
        comment: Color::Rgb(120, 110, 112),
        punctuation: Color::Rgb(150, 140, 142),
    }
}

impl Default for CodeTheme {
    /// A warm, low-contrast syntax palette.
    fn default() -> (t: Self)
        ensures
            t == default_code_theme(),
    {
        CodeTheme {
            heading: Color::Rgb(235, 230, 230),
            link: Color::Rgb(120, 160, 210),
            background: Color::Rgb(28, 24, 26),
            text: Color::Rgb(210, 205, 205),
            label: Color::Rgb(150, 140, 142),
            keyword: Color::Rgb(210, 120, 90),
            function: Color::Rgb(120, 160, 210),
            types: Color::Rgb(126, 170, 176),
            constant: Color::Rgb(200, 160, 120),
            string: Color::Rgb(150, 180, 140),
            comment: Color::Rgb(120, 110, 112),
            punctuation: Color::Rgb(150, 140, 142),
        }
    }
}

/// A named palette every component styles itself from.
#[derive(Clone, Copy, Debug, PartialEq, Eq, Structural)]
pub struct Theme {
    /// Base fill behind the whole screen.
    pub background: Color,
    /// Raised fill for panels and overlays that sit above the background.
    pub surface: Color,
    /// Primary foreground for body text.
    pub text: Color,
    /// De-emphasized foreground for secondary text, hints, and scrollbar thumbs.
    pub muted: Color,
    /// Faintest foreground, dimmer than `muted`, for inactive tracks and rules.
    pub dim: Color,
    /// Primary highlight for active/emphasized elements.
    pub accent: Color,
    /// Secondary accent for complementary highlights distinct from `accent`.
    pub accent_alt: Color,
    /// Border color for unfocused bordered components.
    pub border: Color,
    /// Border color for the focused component.
    pub border_focused: Color,
    /// Background of the selected item in lists and menus.
    pub selection_bg: Color,
    /// Foreground of the selected item in lists and menus.
    pub selection_fg: Color,
    /// Markdown and code-block role colors.
    pub code: CodeTheme,
}

/// The toolkit's own warm red-on-dark identity.
pub open spec fn default_theme() -> Theme {
    Theme {
        background: Color::Rgb(20, 18, 20),
        surface: Color::Rgb(34, 28, 30),
        text: Color::Rgb(235, 230, 230),
        muted: Color::Rgb(150, 140, 142),
        dim: Color::Rgb(90, 74, 78),
        accent: Color::Rgb(200, 60, 70),
        accent_alt: Color::Rgb(230, 140, 90),
        border: Color::Rgb(90, 74, 78),
        border_focused: Color::Rgb(200, 60, 70),
        selection_bg: Color::Rgb(120, 30, 40),
        selection_fg: Color::Rgb(240, 235, 235),
        code: default_code_theme(),
    }
}

impl Default for Theme {
    /// The toolkit's own warm red-on-dark identity.
    fn default() -> (t: Self)
        ensures
            t == default_theme(),
    {
        Theme {
            background: Color::Rgb(20, 18, 20),
            surface: Color::Rgb(34, 28, 30),
            text: Color::Rgb(235, 230, 230),
            muted: Color::Rgb(150, 140, 142),
            dim: Color::Rgb(90, 74, 78),
            accent: Color::Rgb(200, 60, 70),
            accent_alt: Color::Rgb(230, 140, 90),
            border: Color::Rgb(90, 74, 78),
            border_focused: Color::Rgb(200, 60, 70),
            selection_bg: Color::Rgb(120, 30, 40),
            selection_fg: Color::Rgb(240, 235, 235),
            code: CodeTheme::default(),
        }
    }
}

/// The theme color for a status role: strings for success, constants for
/// warning, keywords for danger, and links for info.
pub open spec fn semantic_color_of(theme: Theme, role: SemanticRole) -> Color {
    match role {
        SemanticRole::Success => theme.code.string,
        SemanticRole::Warning => theme.code.constant,
        SemanticRole::Danger => theme.code.keyword,
        SemanticRole::Info => theme.code.link,
    }
}

impl Theme {
    /// Border color for a component, `border_focused` when `focused` else `border`.
    pub fn border_color(&self, focused: bool) -> (c: Color)
        ensures
            c == (if focused { self.border_focused } else { self.border }),
    {
        if focused {
            self.border_focused
        } else {
            self.border
        }
    }

    /// Resolve a generic status role from the syntax palette's established
    /// semantic colors.
    pub fn semantic_color(&self, role: SemanticRole) -> (c: Color)
        ensures
            c == semantic_color_of(*self, role),
    {
        match role {
            SemanticRole::Success => self.code.string,
            SemanticRole::Warning => self.code.constant,
            SemanticRole::Danger => self.code.keyword,
            SemanticRole::Info => self.code.link,
        }
    }

    /// Primary body text: the `text` foreground.
    pub fn text_style(&self) -> (b: StyleBundle)
        ensures
            b == bundle(Some(self.text), None, 0),
    {
        StyleBundle::new().fg(self.text)
    }

    /// De-emphasized text: the `muted` foreground.
    pub fn muted_style(&self) -> (b: StyleBundle)
        ensures
            b == bundle(Some(self.muted), None, 0),
    {
        StyleBundle::new().fg(self.muted)
    }

    /// Bold text in the primary `accent` color.
    pub fn accent_style(&self) -> (b: StyleBundle)
        ensures
            b == bundle(Some(self.accent), None, 1),
    {
        StyleBundle { fg: Some(self.accent), add_modifier: Modifier::bold(), ..StyleBundle::new() }
    }

    /// Bold text on the selection colors.
    pub fn selection_style(&self) -> (b: StyleBundle)
        ensures
            b == bundle(Some(self.selection_fg), Some(self.selection_bg), 1),
    {
        StyleBundle {
            fg: Some(self.selection_fg),
            bg: Some(self.selection_bg),
            add_modifier: Modifier::bold(),
            ..StyleBundle::new()
        }
    }

    /// Bold text in the color of a status role.
    pub fn semantic_style(&self, role: SemanticRole) -> (b: StyleBundle)
        ensures
            b == bundle(Some(semantic_color_of(*self, role)), None, 1),
    {
        StyleBundle {
            fg: Some(self.semantic_color(role)),
            add_modifier: Modifier::bold(),
            ..StyleBundle::new()
        }
    }

    /// Bold success text.
    pub fn success_style(&self) -> (b: StyleBundle)
        ensures
            b == bundle(Some(self.code.string), None, 1),
    {
        self.semantic_style(SemanticRole::Success)
    }

    /// Bold warning text.
    pub fn warning_style(&self) -> (b: StyleBundle)
        ensures
            b == bundle(Some(self.code.constant), None, 1),
    {
        self.semantic_style(SemanticRole::Warning)
    }

    /// Bold danger text.
    pub fn danger_style(&self) -> (b: StyleBundle)
        ensures
            b == bundle(Some(self.code.keyword), None, 1),
    {
        self.semantic_style(SemanticRole::Danger)
    }

    /// Bold informational text.
    pub fn info_style(&self) -> (b: StyleBundle)
        ensures
            b == bundle(Some(self.code.link), None, 1),
    {
        self.semantic_style(SemanticRole::Info)
    }
}

/// A resolved, partial style for one semantic role: every field is optional
/// so a bundle can contribute (add a modifier, override just the foreground)
/// rather than replace a whole style.
#[derive(Clone, Copy, Debug, PartialEq, Eq, Structural)]
pub struct StyleBundle {
    /// Foreground color, when the role sets one.
    pub fg: Option<Color>,
    /// Background color, when the role sets one.
    pub bg: Option<Color>,
    /// Text modifiers the role adds.
    pub add_modifier: Modifier,
    /// Border glyph style for container roles.
    pub border: Option<BorderStyle>,
    /// Padding for container roles, when the role sets one.
    pub padding: Option<Padding>,
}

/// A bundle with the given colors and modifier bits, and no border or
/// padding.
pub open spec fn bundle(fg: Option<Color>, bg: Option<Color>, bits: u16) -> StyleBundle {
    StyleBundle { fg, bg, add_modifier: Modifier { bits }, border: None, padding: None }
}

/// `first` when set, else `second`.
pub open spec fn either<T>(first: Option<T>, second: Option<T>) -> Option<T> {
    match first {
        Some(v) => Some(v),
        None => second,
    }
}

impl Default for StyleBundle {
    fn default() -> (b: Self)
        ensures
            b == bundle(None, None, 0),
    {
        StyleBundle::new()
    }
}

impl StyleBundle {
    /// An empty bundle that overrides nothing and adds no modifiers.
    pub fn new() -> (b: Self)
        ensures
            b == bundle(None, None, 0),
    {
        StyleBundle {
            fg: None,
            bg: None,
            add_modifier: Modifier::empty(),
            border: None,
            padding: None,
        }
    }

    /// Set the foreground color.
    pub fn fg(self, color: Color) -> (b: Self)
        ensures
            b == (StyleBundle { fg: Some(color), ..self }),
    {
        StyleBundle { fg: Some(color), ..self }
    }

    /// Set the background color.
    pub fn bg(self, color: Color) -> (b: Self)
        ensures
            b == (StyleBundle { bg: Some(color), ..self }),
    {
        StyleBundle { bg: Some(color), ..self }
    }

    /// Add text modifiers (accumulates with any already set).
    pub fn modifier(self, m: Modifier) -> (b: Self)
        ensures
            b == (StyleBundle { add_modifier: Modifier { bits: self.add_modifier@ | m@ }, ..self }),
    {
        StyleBundle { add_modifier: self.add_modifier.union(m), ..self }
    }

    /// Add the bold modifier.
    pub fn bold(self) -> (b: Self)
        ensures
            b == (StyleBundle { add_modifier: Modifier { bits: self.add_modifier@ | 1 }, ..self }),
    {
        self.modifier(Modifier::bold())
    }

    /// Add the italic modifier.
    pub fn italic(self) -> (b: Self)
        ensures
            b == (StyleBundle { add_modifier: Modifier { bits: self.add_modifier@ | 4 }, ..self }),
    {
        self.modifier(Modifier::italic())
    }

    /// Add the underline modifier.
    pub fn underlined(self) -> (b: Self)
        ensures
            b == (StyleBundle { add_modifier: Modifier { bits: self.add_modifier@ | 8 }, ..self }),
    {
        self.modifier(Modifier::underlined())
    }

    /// Add the crossed-out (strikethrough) modifier.
    pub fn crossed_out(self) -> (b: Self)
        ensures
            b == (StyleBundle {
                add_modifier: Modifier { bits: self.add_modifier@ | 256 },
                ..self
            }),
    {
        self.modifier(Modifier::crossed_out())
    }

    /// Set the border glyph style (container roles).
    pub fn border(self, border: BorderStyle) -> (b: Self)
        ensures
            b == (StyleBundle { border: Some(border), ..self }),
    {
        StyleBundle { border: Some(border), ..self }
    }

    /// Set the padding (container roles).
    pub fn padding(self, padding: Padding) -> (b: Self)
        ensures
            b == (StyleBundle { padding: Some(padding), ..self }),
    {
        StyleBundle { padding: Some(padding), ..self }
    }

    /// Overlay `override_bundle` onto this bundle: set fields replace the
    /// base, unset fields inherit it, and modifiers are combined.
    pub fn overlay(self, override_bundle: StyleBundle) -> (b: Self)
        ensures
            b == overlaid(self, override_bundle),
    {
        StyleBundle {
            fg: match override_bundle.fg {
                Some(c) => Some(c),
                None => self.fg,
            },
            bg: match override_bundle.bg {
                Some(c) => Some(c),
                None => self.bg,
            },
            add_modifier: self.add_modifier.union(override_bundle.add_modifier),
            border: match override_bundle.border {
                Some(b) => Some(b),
                None => self.border,
            },
            padding: match override_bundle.padding {
                Some(p) => Some(p),
                None => self.padding,
            },
        }
    }
}

/// The rule layer of the styling model: a mapping from every role to the
/// bundle a component resolves for it.
#[derive(Clone, Copy, Debug, PartialEq, Eq, Structural)]
pub struct StyleSheet {
    /// Border color/background for a bordered panel.
    pub panel: StyleBundle,
    /// Markdown heading text.
    pub heading: StyleBundle,
    /// Links and bare URLs.
    pub link: StyleBundle,
    /// Inline code spans.
    pub inline_code: StyleBundle,
    /// Emphasized text (modifier-only, keeps the inherited color).
    pub emphasis: StyleBundle,
    /// Strong text (modifier-only).
    pub strong: StyleBundle,
    /// Struck-through text (modifier-only).
    pub strikethrough: StyleBundle,
    /// List bullet / number markers.
    pub list_marker: StyleBundle,
    /// Task-list checkbox markers.
    pub task_marker: StyleBundle,
    /// Thematic-break rules.
    pub rule: StyleBundle,
    /// Inline-image placeholder marker glyph.
    pub image_marker: StyleBundle,
    /// Base text and fill of toast rows.
    pub toast: StyleBundle,
    /// Informational toast accent.
    pub toast_info: StyleBundle,
    /// Successful toast accent.
    pub toast_success: StyleBundle,
    /// Warning toast accent.
    pub toast_warning: StyleBundle,
    /// Error toast accent.
    pub toast_error: StyleBundle,
    /// Diff block background.
    pub diff: StyleBundle,
    /// Inserted diff rows.
    pub diff_added: StyleBundle,
    /// Removed diff rows.
    pub diff_removed: StyleBundle,
    /// Unchanged diff rows.
    pub diff_context: StyleBundle,
    /// Diff line-number gutter.
    pub diff_gutter: StyleBundle,
    /// Divider between side-by-side diff columns.
    pub diff_divider: StyleBundle,
    /// Key-cap portion of an action hint.
    pub key_hint_key: StyleBundle,
    /// Label portion of an action hint.
    pub key_hint_label: StyleBundle,
}

/// The bundle the sheet maps `role` to.
pub open spec fn resolve_spec(sheet: StyleSheet, role: Role) -> StyleBundle {
    match role {
        Role::Panel => sheet.panel,
        Role::Heading => sheet.heading,
        Role::Link => sheet.link,
        Role::InlineCode => sheet.inline_code,
        Role::Emphasis => sheet.emphasis,
        Role::Strong => sheet.strong,
        Role::Strikethrough => sheet.strikethrough,
        Role::ListMarker => sheet.list_marker,
        Role::TaskMarker => sheet.task_marker,
        Role::Rule => sheet.rule,
        Role::ImageMarker => sheet.image_marker,
    }
}

/// The bundle the sheet maps the built-in open role named `name` to; `None`
/// for an application role.
pub open spec fn resolve_style_spec(sheet: StyleSheet, name: Seq<char>) -> Option<StyleBundle> {
    if name == "tuika.toast"@ {
        Some(sheet.toast)
    } else if name == "tuika.toast.info"@ {
        Some(sheet.toast_info)
    } else if name == "tuika.toast.success"@ {
        Some(sheet.toast_success)
    } else if name == "tuika.toast.warning"@ {
        Some(sheet.toast_warning)
    } else if name == "tuika.toast.error"@ {
        Some(sheet.toast_error)
    } else if name == "tuika.diff"@ {
        Some(sheet.diff)
    } else if name == "tuika.diff.added"@ {
        Some(sheet.diff_added)
    } else if name == "tuika.diff.removed"@ {
        Some(sheet.diff_removed)
    } else if name == "tuika.diff.context"@ {
        Some(sheet.diff_context)
    } else if name == "tuika.diff.gutter"@ {
        Some(sheet.diff_gutter)
    } else if name == "tuika.diff.divider"@ {
        Some(sheet.diff_divider)
    } else if name == "tuika.key-hint.key"@ {
        Some(sheet.key_hint_key)
    } else if name == "tuika.key-hint.label"@ {
        Some(sheet.key_hint_label)
    } else {
        None
    }
}

/// The stylesheet derived from `theme`: every built-in role mapped to a
/// theme-derived style.
pub open spec fn sheet_for(theme: Theme) -> StyleSheet {
    StyleSheet {
        panel: bundle(None, None, 0),
        heading: bundle(Some(theme.code.heading), None, 1),
        link: bundle(Some(theme.code.link), None, 8),
        inline_code: bundle(Some(theme.code.text), Some(theme.code.background), 0),
        emphasis: bundle(None, None, 4),
        strong: bundle(None, None, 1),
        strikethrough: bundle(None, None, 256),
        list_marker: bundle(Some(theme.accent_alt), None, 0),
        task_marker: bundle(Some(theme.accent), None, 0),
        rule: bundle(Some(theme.dim), None, 0),
        image_marker: bundle(Some(theme.accent), None, 0),
        toast: bundle(Some(theme.text), Some(theme.surface), 0),
        toast_info: bundle(Some(semantic_color_of(theme, SemanticRole::Info)), Some(theme.surface), 0),
        toast_success: bundle(
            Some(semantic_color_of(theme, SemanticRole::Success)),
            Some(theme.surface),
            0,
        ),
        toast_warning: bundle(
            Some(semantic_color_of(theme, SemanticRole::Warning)),
            Some(theme.surface),
            0,
        ),
        toast_error: bundle(
            Some(semantic_color_of(theme, SemanticRole::Danger)),
            Some(theme.surface),
            0,
        ),
        diff: bundle(None, Some(theme.code.background), 0),
        diff_added: bundle(Some(semantic_color_of(theme, SemanticRole::Success)), None, 0),
        diff_removed: bundle(Some(semantic_color_of(theme, SemanticRole::Danger)), None, 0),
        diff_context: bundle(Some(theme.muted), None, 0),
        diff_gutter: bundle(Some(theme.muted), None, 0),
        diff_divider: bundle(Some(theme.dim), None, 0),
        key_hint_key: bundle(Some(Color::Black), Some(theme.accent), 0),
        key_hint_label: bundle(Some(theme.muted), None, 0),
    }
}

impl StyleSheet {
    /// The default stylesheet for `theme`: every built-in role mapped to a
    /// theme-derived style. Start from this and override the roles to restyle.
    pub fn from_theme(theme: &Theme) -> (s: Self)
        ensures
            s == sheet_for(*theme),
    {
        proof {
            assert(0u16 | 1u16 == 1u16) by (bit_vector);
            assert(0u16 | 4u16 == 4u16) by (bit_vector);
            assert(0u16 | 8u16 == 8u16) by (bit_vector);
            assert(0u16 | 256u16 == 256u16) by (bit_vector);
        }
        let code = &theme.code;
        StyleSheet {
            panel: StyleBundle::new(),
            heading: StyleBundle::new().fg(code.heading).bold(),
            link: StyleBundle::new().fg(code.link).underlined(),
            inline_code: StyleBundle::new().fg(code.text).bg(code.background),
            emphasis: StyleBundle::new().italic(),
            strong: StyleBundle::new().bold(),
            strikethrough: StyleBundle::new().crossed_out(),
            list_marker: StyleBundle::new().fg(theme.accent_alt),
            task_marker: StyleBundle::new().fg(theme.accent),
            rule: StyleBundle::new().fg(theme.dim),
            image_marker: StyleBundle::new().fg(theme.accent),
            toast: StyleBundle::new().fg(theme.text).bg(theme.surface),
            toast_info: StyleBundle::new().fg(theme.semantic_color(SemanticRole::Info)).bg(
                theme.surface,
            ),
            toast_success: StyleBundle::new().fg(theme.semantic_color(SemanticRole::Success)).bg(
                theme.surface,
            ),
            toast_warning: StyleBundle::new().fg(theme.semantic_color(SemanticRole::Warning)).bg(
                theme.surface,
            ),
            toast_error: StyleBundle::new().fg(theme.semantic_color(SemanticRole::Danger)).bg(
                theme.surface,
            ),
            diff: StyleBundle::new().bg(code.background),
            diff_added: StyleBundle::new().fg(theme.semantic_color(SemanticRole::Success)),
            diff_removed: StyleBundle::new().fg(theme.semantic_color(SemanticRole::Danger)),
            diff_context: StyleBundle::new().fg(theme.muted),
            diff_gutter: StyleBundle::new().fg(theme.muted),
            diff_divider: StyleBundle::new().fg(theme.dim),
            key_hint_key: StyleBundle::new().fg(Color::Black).bg(theme.accent),
            key_hint_label: StyleBundle::new().fg(theme.muted),
        }
    }

    /// The bundle mapped to `role`.
    pub fn resolve(&self, role: Role) -> (b: StyleBundle)
        ensures
            b == resolve_spec(*self, role),
    {
        match role {
            Role::Panel => self.panel,
            Role::Heading => self.heading,
            Role::Link => self.link,
            Role::InlineCode => self.inline_code,
            Role::Emphasis => self.emphasis,
            Role::Strong => self.strong,
            Role::Strikethrough => self.strikethrough,
            Role::ListMarker => self.list_marker,
            Role::TaskMarker => self.task_marker,
            Role::Rule => self.rule,
            Role::ImageMarker => self.image_marker,
        }
    }

    /// Resolve a built-in open role. Unknown application roles return `None`
    /// for the host's own style policy to own.
    pub fn resolve_style(&self, role: StyleRole) -> (b: Option<StyleBundle>)
        ensures
            b == resolve_style_spec(*self, role.name_spec()),
    {
        let name = role.name();
        if same_id(name, "tuika.toast") {
            return Some(self.toast);
        }
        if same_id(name, "tuika.toast.info") {
            return Some(self.toast_info);
        }
        if same_id(name, "tuika.toast.success") {
            return Some(self.toast_success);
        }
        if same_id(name, "tuika.toast.warning") {
            return Some(self.toast_warning);
        }
        if same_id(name, "tuika.toast.error") {
            return Some(self.toast_error);
        }
        if same_id(name, "tuika.diff") {
            return Some(self.diff);
        }
        if same_id(name, "tuika.diff.added") {
            return Some(self.diff_added);
        }
        if same_id(name, "tuika.diff.removed") {
            return Some(self.diff_removed);
        }
        if same_id(name, "tuika.diff.context") {
            return Some(self.diff_context);
        }
        if same_id(name, "tuika.diff.gutter") {
            return Some(self.diff_gutter);
        }
        if same_id(name, "tuika.diff.divider") {
            return Some(self.diff_divider);
        }
        if same_id(name, "tuika.key-hint.key") {
            return Some(self.key_hint_key);
        }
        if same_id(name, "tuika.key-hint.label") {
            return Some(self.key_hint_label);
        }
        None
    }
}

impl Default for StyleSheet {
    /// The stylesheet for the default theme.
    fn default() -> (s: Self)
        ensures
            s == sheet_for(default_theme()),
    {
        StyleSheet::from_theme(&Theme::default())
    }
}

/// The bundle `overlay` builds from a base and an override.
pub open spec fn overlaid(base: StyleBundle, over: StyleBundle) -> StyleBundle {
    StyleBundle {
        fg: either(over.fg, base.fg),
        bg: either(over.bg, base.bg),
        add_modifier: Modifier { bits: base.add_modifier@ | over.add_modifier@ },
        border: either(over.border, base.border),
        padding: either(over.padding, base.padding),
    }
}

/// Overlaying composes: an empty bundle changes nothing on either side, and
/// overlaying in steps is the same as overlaying the combined override.
pub proof fn overlays_compose(a: StyleBundle, b: StyleBundle, c: StyleBundle)
    ensures
        overlaid(a, bundle(None, None, 0)) == a,
        overlaid(bundle(None, None, 0), a) == a,
        overlaid(overlaid(a, b), c) == overlaid(a, overlaid(b, c)),
{
    let (x, y, z) = (a.add_modifier.bits, b.add_modifier.bits, c.add_modifier.bits);
    assert(x | 0u16 == x && 0u16 | x == x) by (bit_vector);
    assert((x | y) | z == x | (y | z)) by (bit_vector);
}

} // verus!
