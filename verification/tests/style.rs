use tuika::geometry::Padding;
use tuika::style::{
    BorderStyle, CodeTheme, Color, Modifier, Role, SemanticRole, StyleBundle, StyleRole,
    StyleSheet, Theme,
};

/// A theme whose every slot holds a different color, so a slot mix-up shows.
fn rainbow_theme() -> Theme {
    let c = |i: u8| Color::Indexed(i);
    Theme {
        background: c(1),
        surface: c(2),
        text: c(3),
        muted: c(4),
        dim: c(5),
        accent: c(6),
        accent_alt: c(7),
        border: c(8),
        border_focused: c(9),
        selection_bg: c(10),
        selection_fg: c(11),
        code: CodeTheme {
            heading: c(12),
            link: c(13),
            background: c(14),
            text: c(15),
            label: c(16),
            keyword: c(17),
            function: c(18),
            types: c(19),
            constant: c(20),
            string: c(21),
            comment: c(22),
            punctuation: c(23),
        },
    }
}

#[test]
fn default_theme_is_the_toolkit_identity_not_a_host_brand() {
    let t = Theme::default();
    assert_eq!(t.accent, Color::Rgb(200, 60, 70));
    assert_eq!(t.selection_bg, Color::Rgb(120, 30, 40));
    // Not another product's accent blue.
    assert_ne!(t.accent, Color::Rgb(45, 91, 158));
}

#[test]
fn bundle_overlay_inherits_unset_attributes() {
    let base = StyleBundle::new().fg(Color::Red).bg(Color::Black).bold();
    let merged = base.overlay(StyleBundle::new().fg(Color::Green).italic());
    assert_eq!(merged.fg, Some(Color::Green));
    assert_eq!(merged.bg, Some(Color::Black));
    assert!(merged.add_modifier.contains(Modifier::bold()));
    assert!(merged.add_modifier.contains(Modifier::italic()));
}

#[test]
fn from_theme_reproduces_the_pre_stylesheet_styles() {
    let t = rainbow_theme();
    let s = StyleSheet::from_theme(&t);
    assert_eq!(s.heading.fg, Some(t.code.heading));
    assert!(s.heading.add_modifier.contains(Modifier::bold()));
    assert_eq!(s.link.fg, Some(t.code.link));
    assert!(s.link.add_modifier.contains(Modifier::underlined()));
    assert_eq!(s.inline_code.fg, Some(t.code.text));
    assert_eq!(s.inline_code.bg, Some(t.code.background));
    // Emphasis is modifier-only so it keeps the surrounding prose color.
    assert_eq!(s.emphasis.fg, None);
    assert!(s.emphasis.add_modifier.contains(Modifier::italic()));
}

#[test]
fn resolve_matches_named_fields() {
    let s = StyleSheet::from_theme(&rainbow_theme());
    assert_eq!(s.resolve(Role::Heading), s.heading);
    assert_eq!(s.resolve(Role::Link), s.link);
    assert_eq!(s.resolve(Role::Panel), s.panel);
    assert_eq!(s.resolve_style(StyleRole::toast_error()), Some(s.toast_error));
    assert_eq!(s.resolve_style(StyleRole::diff_added()), Some(s.diff_added));
    assert_eq!(s.resolve_style(StyleRole::key_hint_label()), Some(s.key_hint_label));
    assert_eq!(s.resolve_style(StyleRole::new("app.unknown")), None);
}

#[test]
fn overriding_one_role_leaves_the_rest_at_theme_defaults() {
    let t = rainbow_theme();
    let sheet = StyleSheet {
        link: StyleBundle::new().fg(Color::Green).bold(),
        ..StyleSheet::from_theme(&t)
    };
    assert_eq!(sheet.link.fg, Some(Color::Green));
    assert!(sheet.link.add_modifier.contains(Modifier::bold()));
    // Everything else still tracks the theme.
    assert_eq!(sheet.heading.fg, Some(t.code.heading));
}

#[test]
fn every_built_in_role_resolves_to_its_own_slot() {
    let t = rainbow_theme();
    let s = StyleSheet::from_theme(&t);
    let pairs = [
        (StyleRole::toast(), s.toast),
        (StyleRole::toast_info(), s.toast_info),
        (StyleRole::toast_success(), s.toast_success),
        (StyleRole::toast_warning(), s.toast_warning),
        (StyleRole::toast_error(), s.toast_error),
        (StyleRole::diff(), s.diff),
        (StyleRole::diff_added(), s.diff_added),
        (StyleRole::diff_removed(), s.diff_removed),
        (StyleRole::diff_context(), s.diff_context),
        (StyleRole::diff_gutter(), s.diff_gutter),
        (StyleRole::diff_divider(), s.diff_divider),
        (StyleRole::key_hint_key(), s.key_hint_key),
        (StyleRole::key_hint_label(), s.key_hint_label),
    ];
    for (role, expected) in pairs {
        assert_eq!(s.resolve_style(role), Some(expected), "{}", role.name());
    }
    assert_eq!(StyleRole::diff_added().name(), "tuika.diff.added");
    assert_eq!(s.key_hint_key.fg, Some(Color::Black));
    assert_eq!(s.toast_error.fg, Some(t.semantic_color(SemanticRole::Danger)));
    assert_eq!(s.diff_added.fg, Some(t.code.string));
    assert_eq!(StyleSheet::default(), StyleSheet::from_theme(&Theme::default()));
}

#[test]
fn overlays_with_an_empty_bundle_change_nothing() {
    let b = StyleBundle::new()
        .fg(Color::Cyan)
        .crossed_out()
        .border(BorderStyle::Thick)
        .padding(Padding::all(2));
    assert_eq!(b.overlay(StyleBundle::default()), b);
    assert_eq!(StyleBundle::new().overlay(b), b);
    let over = StyleBundle::new().bg(Color::Indexed(4)).border(BorderStyle::Plain);
    let merged = b.overlay(over);
    assert_eq!(merged.border, Some(BorderStyle::Plain));
    assert_eq!(merged.padding, Some(Padding::all(2)));
    assert_eq!(merged.bg, Some(Color::Indexed(4)));
    assert_eq!(merged.fg, Some(Color::Cyan));
}

#[test]
fn modifiers_combine_as_bits() {
    let m = Modifier::bold().union(Modifier::dim()).union(Modifier::reversed());
    assert_eq!(m.bits(), 1 | 2 | 64);
    assert!(m.contains(Modifier::dim()));
    assert!(!m.contains(Modifier::italic()));
    assert!(Modifier::default().is_empty());
    assert_eq!(Modifier::from_bits_truncate(0xffff).bits(), 0x1ff);
    assert_eq!(Modifier::empty(), Modifier::from_bits_truncate(0x200));
}

#[test]
fn theme_colors_follow_focus_and_status() {
    let t = rainbow_theme();
    assert_eq!(t.border_color(false), t.border);
    assert_eq!(t.border_color(true), t.border_focused);
    assert_eq!(t.semantic_color(SemanticRole::Success), t.code.string);
    assert_eq!(t.semantic_color(SemanticRole::Warning), t.code.constant);
    assert_eq!(t.semantic_color(SemanticRole::Danger), t.code.keyword);
    assert_eq!(t.semantic_color(SemanticRole::Info), t.code.link);
    assert_eq!(Padding::all(3).horizontal(), 6);
    assert_eq!(Padding { top: u16::MAX, right: 0, bottom: 1, left: 0 }.vertical(), u16::MAX);
}

#[test]
fn theme_styles_are_bold_where_they_emphasize() {
    let t = rainbow_theme();
    assert_eq!(t.text_style(), StyleBundle::new().fg(t.text));
    assert_eq!(t.muted_style(), StyleBundle::new().fg(t.muted));
    assert_eq!(t.accent_style(), StyleBundle::new().fg(t.accent).bold());
    assert_eq!(t.selection_style(), StyleBundle::new().fg(t.selection_fg).bg(t.selection_bg).bold());
    assert_eq!(t.success_style(), StyleBundle::new().fg(t.code.string).bold());
    assert_eq!(t.warning_style(), StyleBundle::new().fg(t.code.constant).bold());
    assert_eq!(t.danger_style(), StyleBundle::new().fg(t.code.keyword).bold());
    assert_eq!(t.info_style(), StyleBundle::new().fg(t.code.link).bold());
    assert_eq!(t.semantic_style(SemanticRole::Info), t.info_style());
}
