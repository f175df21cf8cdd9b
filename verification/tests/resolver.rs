use entry_colors::{ColorTable, ColoredString, Colors, Colour, Elem, TextStyle, Theme};
use lscolors::LsColors;

fn all_elems() -> Vec<(Elem, u8)> {
    vec![
        (Elem::User, 6),
        (Elem::Group, 7),
        (Elem::Read, 2),
        (Elem::Write, 11),
        (Elem::Exec, 9),
        (Elem::ExecSticky, 13),
        (Elem::NoAccess, 7),
        (
            Elem::File {
                executable: false,
                uid: false,
            },
            11,
        ),
        (
            Elem::File {
                executable: false,
                uid: true,
            },
            11,
        ),
        (
            Elem::File {
                executable: true,
                uid: false,
            },
            2,
        ),
        (
            Elem::File {
                executable: true,
                uid: true,
            },
            2,
        ),
        (Elem::Dir { uid: true }, 4),
        (Elem::Dir { uid: false }, 4),
        (Elem::Pipe, 6),
        (Elem::SymLink, 6),
        (Elem::BrokenSymLink, 9),
        (Elem::BlockDevice, 6),
        (Elem::CharDevice, 3),
        (Elem::Socket, 6),
        (Elem::Special, 6),
        (Elem::HourOld, 7),
        (Elem::DayOld, 7),
        (Elem::Older, 7),
        (Elem::NonFile, 7),
        (Elem::FileSmall, 3),
        (Elem::FileMedium, 5),
        (Elem::FileLarge, 9),
        (Elem::INode { valid: true }, 13),
        (Elem::INode { valid: false }, 7),
    ]
}

#[test]
fn has_suid_only_for_setuid_variants() {
    assert!(Elem::Dir { uid: true }.has_suid());
    assert!(Elem::File {
        executable: false,
        uid: true
    }
    .has_suid());
    assert!(Elem::File {
        executable: true,
        uid: true
    }
    .has_suid());
    assert!(!Elem::Dir { uid: false }.has_suid());
    assert!(!Elem::File {
        executable: true,
        uid: false
    }
    .has_suid());
    assert!(!Elem::SymLink.has_suid());
    assert!(!Elem::ExecSticky.has_suid());
    assert!(!Elem::INode { valid: true }.has_suid());
}

#[test]
fn table_only_mode_uses_table_foreground_for_every_variant() {
    let colors = Colors::new(Theme::NoLscolors);
    for (elem, code) in all_elems() {
        let out = colors.colorize(String::from("entry"), &elem);
        assert_eq!(out.style.foreground, Some(Colour::Fixed(code)));
        assert_eq!(out.text, "entry");
    }
}

#[test]
fn table_lookup_is_total() {
    let table = ColorTable::light_theme();
    for (elem, code) in all_elems() {
        assert_eq!(table.color_for(&elem), Colour::Fixed(code));
    }
}

#[test]
fn suid_variants_carry_warning_background() {
    let colors = Colors::new(Theme::NoLscolors);
    for (elem, _) in all_elems() {
        let out = colors.colorize(String::from("x"), &elem);
        if elem.has_suid() {
            assert_eq!(out.style.background, Some(Colour::Fixed(124)));
        } else {
            assert_eq!(out.style.background, None);
        }
    }
}

#[test]
fn dir_override_wins_unmodified() {
    let source = LsColors::from_string("di=35");
    let colors = Colors::with_source(Theme::Default, source);
    let out = colors.colorize(String::from("somedir"), &Elem::Dir { uid: false });
    assert_eq!(out.style.foreground, Some(Colour::Purple));
    assert_eq!(out.style.background, None);
    assert!(!out.style.is_bold);
}

#[test]
fn override_styles_convert_colors_and_attributes() {
    let source = LsColors::from_string("di=1;31:ln=38;5;200");
    let colors = Colors::with_source(Theme::Default, source);

    let dir = colors.colorize(String::from("d"), &Elem::Dir { uid: false });
    assert_eq!(dir.style.foreground, Some(Colour::Red));
    assert!(dir.style.is_bold);

    let link = colors.colorize(String::from("l"), &Elem::SymLink);
    assert_eq!(link.style.foreground, Some(Colour::Fixed(200)));
    assert!(!link.style.is_bold);
}

#[test]
fn suid_dir_ignores_di_override() {
    let source = LsColors::from_string("di=35;42");
    let colors = Colors::with_source(Theme::Default, source);
    let out = colors.colorize(String::from("somedir"), &Elem::Dir { uid: true });
    assert_eq!(out.style.foreground, Some(Colour::Fixed(4)));
    assert_eq!(out.style.background, Some(Colour::Fixed(124)));
}

#[test]
fn suid_file_ignores_fi_and_ex_overrides() {
    let source = LsColors::from_string("fi=35:ex=36");
    let colors = Colors::with_source(Theme::Default, source);
    let plain_suid = colors.colorize(
        String::from("f"),
        &Elem::File {
            executable: false,
            uid: true,
        },
    );
    assert_eq!(plain_suid.style.foreground, Some(Colour::Fixed(11)));
    assert_eq!(plain_suid.style.background, Some(Colour::Fixed(124)));
    let exec_suid = colors.colorize(
        String::from("f"),
        &Elem::File {
            executable: true,
            uid: true,
        },
    );
    assert_eq!(exec_suid.style.foreground, Some(Colour::Fixed(2)));
    assert_eq!(exec_suid.style.background, Some(Colour::Fixed(124)));
}

#[test]
fn unregistered_indicator_falls_back_to_table() {
    let source = LsColors::empty();
    let colors = Colors::with_source(Theme::Default, source);
    let out = colors.colorize(String::from("p"), &Elem::Pipe);
    assert_eq!(out.style.foreground, Some(Colour::Fixed(6)));
    assert_eq!(out.style.background, None);
}

#[test]
fn variant_without_indicator_uses_table_in_default_mode() {
    let source = LsColors::from_string("no=35");
    let colors = Colors::with_source(Theme::Default, source);
    let out = colors.colorize(String::from("u"), &Elem::User);
    assert_eq!(out.style.foreground, Some(Colour::Fixed(6)));
}

#[test]
fn inode_variants_use_their_indicator_codes() {
    let source = LsColors::from_string("so=32:no=33");
    let colors = Colors::with_source(Theme::Default, source);
    let valid = colors.colorize(String::from("i"), &Elem::INode { valid: true });
    assert_eq!(valid.style.foreground, Some(Colour::Green));
    let invalid = colors.colorize(String::from("i"), &Elem::INode { valid: false });
    assert_eq!(invalid.style.foreground, Some(Colour::Yellow));
}

#[test]
fn recognized_path_wins_over_classification() {
    let source = LsColors::from_string("*.zip=01;31");
    let colors = Colors::with_source(Theme::Default, source);
    let out = colors.colorize_using_path(
        String::from("archive.zip"),
        "no-such-dir/archive.zip",
        &Elem::Dir { uid: true },
    );
    assert_eq!(out.style.foreground, Some(Colour::Red));
    assert!(out.style.is_bold);
    assert_eq!(out.style.background, None);
}

#[test]
fn unrecognized_path_matches_colorize_exactly() {
    let source = LsColors::from_string("di=35");
    let colors = Colors::with_source(Theme::Default, source);
    let elem = Elem::Dir { uid: false };
    let via_path = colors.colorize_using_path(
        String::from("somedir"),
        "no-such-dir/README-none",
        &elem,
    );
    let direct = colors.colorize(String::from("somedir"), &elem);
    assert_eq!(via_path, direct);
}

#[test]
fn resolve_with_path_style_uses_found_style_verbatim() {
    let colors = Colors::new(Theme::NoLscolors);
    let mut style = TextStyle::plain();
    style.foreground = Some(Colour::Rgb(10, 20, 30));
    style.is_underline = true;
    let out = colors.resolve_with_path_style(
        String::from("entry"),
        Some(style),
        &Elem::Dir { uid: true },
    );
    assert_eq!(out.style, style);
    let fallback = colors.resolve_with_path_style(String::from("entry"), None, &Elem::Pipe);
    assert_eq!(fallback.style, TextStyle::with_fg(Colour::Fixed(6)));
}

#[test]
fn no_color_mode_is_always_plain() {
    let colors = Colors::new(Theme::NoColor);
    for (elem, _) in all_elems() {
        let out = colors.colorize(String::from("x"), &elem);
        assert_eq!(out.style, TextStyle::plain());
        let via_path = colors.colorize_using_path(
            String::from("archive.zip"),
            "no-such-dir/archive.zip",
            &elem,
        );
        assert_eq!(via_path.style, TextStyle::plain());
    }
}

#[test]
fn repeated_calls_yield_identical_results() {
    let source = LsColors::from_string("di=35:*.zip=01;31");
    let colors = Colors::with_source(Theme::Default, source);
    for (elem, _) in all_elems() {
        let a = colors.colorize(String::from("x"), &elem);
        let b = colors.colorize(String::from("x"), &elem);
        assert_eq!(a, b);
        let pa = colors.colorize_using_path(String::from("x"), "no-such-dir/a.zip", &elem);
        let pb = colors.colorize_using_path(String::from("x"), "no-such-dir/a.zip", &elem);
        assert_eq!(pa, pb);
    }
}

#[test]
fn colorize_preserves_text() {
    let colors = Colors::new(Theme::Default);
    let out = colors.colorize(String::from("some entry"), &Elem::SymLink);
    assert_eq!(out.text, "some entry");
    let out2: ColoredString =
        colors.colorize_using_path(String::from("other"), "no-such-dir/other", &Elem::Pipe);
    assert_eq!(out2.text, "other");
}
