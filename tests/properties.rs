use colorize::ansi::AnsiColor;
use colorize::css::CssColor;
use colorize::mode::{
    get_coloring_mode, get_default_stream, set_coloring_mode, set_coloring_mode_from_env,
    set_default_stream, should_color_slow, ColorEnv, ColorKind, ColorPolicy, ColorSupport,
    Coloring, Mode, Stream,
};
use colorize::rgb::RgbColor;
use colorize::sgr::Layer;
use colorize::xterm::XtermColor;
use colorize::{Color, ColorSpec, Effect, EffectFlags, NoColor, ParseColorError, Style, StyledValue};

fn sample_colors() -> Vec<Color> {
    vec![
        Color::Ansi(AnsiColor::Red),
        Color::Ansi(AnsiColor::BrightWhite),
        Color::Ansi(AnsiColor::Default),
        Color::Xterm(XtermColor::from_code(0)),
        Color::Xterm(XtermColor::from_code(7)),
        Color::Xterm(XtermColor::from_code(255)),
        Color::Css(CssColor::RebeccaPurple),
        Color::Rgb(RgbColor { red: 0, green: 9, blue: 100 }),
    ]
}

#[test]
fn escape_is_framed_args_on_every_layer() {
    for c in sample_colors() {
        for layer in [Layer::Foreground, Layer::Background, Layer::Underline] {
            let args = c.args(layer);
            let escape = c.escape(layer);
            assert!(escape.starts_with("\x1b["));
            assert!(escape.ends_with('m'));
            assert_eq!(&escape[2..escape.len() - 1], args);
        }
    }
}

#[test]
fn color_encodings() {
    let red = Color::Ansi(AnsiColor::Red);
    assert_eq!(red.args(Layer::Foreground), "31");
    assert_eq!(red.args(Layer::Background), "41");
    assert_eq!(red.args(Layer::Underline), "58;5;1");
    assert_eq!(Color::Ansi(AnsiColor::BrightBlue).args(Layer::Background), "104");
    assert_eq!(Color::Ansi(AnsiColor::Default).escape(Layer::Foreground), "\x1b[39m");
    let x = Color::Xterm(XtermColor::from_code(5));
    assert_eq!(x.args(Layer::Foreground), "38;5;5");
    assert_eq!(x.args(Layer::Background), "48;5;5");
    assert_eq!(x.escape(Layer::Underline), "\x1b[58;5;5m");
    assert_eq!(CssColor::RebeccaPurple.foreground_args(), "38;2;102;51;153");
    assert_eq!(CssColor::Snow.background_escape(), "\x1b[48;2;255;250;250m");
    assert_eq!(
        RgbColor { red: 0, green: 5, blue: 10 }.underline_escape(),
        "\x1b[58;2;0;5;10m"
    );
    assert_eq!(AnsiColor::Green.to_xterm(), XtermColor::from_code(2));
    assert_eq!(AnsiColor::Default.background_code(), 49);
}

#[test]
fn color_kinds() {
    assert_eq!(Color::Ansi(AnsiColor::Red).color_kind(), ColorKind::Ansi);
    assert_eq!(Color::Xterm(XtermColor::from_code(1)).color_kind(), ColorKind::Xterm);
    assert_eq!(Color::Css(CssColor::Tan).color_kind(), ColorKind::Rgb);
    assert_eq!(
        Color::Rgb(RgbColor { red: 1, green: 2, blue: 3 }).color_kind(),
        ColorKind::Rgb
    );
}

#[test]
fn plain_style_is_empty() {
    assert_eq!(Style::new().apply(), "");
    assert_eq!(Style::new().clear(), "");
    let only_underline_color = Style::new().underline_color(Color::Ansi(AnsiColor::Red));
    assert_eq!(only_underline_color.apply(), "");
    assert_eq!(only_underline_color.clear(), "");
}

#[test]
fn complete_style_clears_with_reset() {
    let a = Style::new()
        .fg(AnsiColor::Red)
        .bg(RgbColor { red: 1, green: 2, blue: 3 })
        .effect_flags(EffectFlags::all());
    let b = Style::new()
        .fg(CssColor::Tan)
        .bg(XtermColor::from_code(200))
        .underline_color(AnsiColor::Blue)
        .effect_flags(EffectFlags::all());
    assert_eq!(a.clear(), "\x1b[0m");
    assert_eq!(b.clear(), "\x1b[0m");
    assert_eq!(Style::clear_all(), "\x1b[0m");
    let partial = a.without(Effect::Bold);
    assert_eq!(
        partial.clear(),
        "\x1b[39;49;22;23;24;24;25;25;27;28;29;55;75;75m"
    );
}

#[test]
fn effects_apply_in_bit_order() {
    let s = Style::new().blink().bold();
    assert_eq!(s.apply(), "\x1b[1;5m");
    assert_eq!(s.clear(), "\x1b[22;25m");
    let all = Style::new().effect_flags(EffectFlags::all());
    assert_eq!(
        all.apply(),
        "\x1b[1;2;3;4;21;5;6;7;8;9;53;73;74m"
    );
    assert_eq!(Style::new().subscript().apply(), "\x1b[74m");
    assert_eq!(Effect::SuperScript.clear_escape(), "\x1b[75m");
    assert_eq!(Effect::DoubleUnderline.apply_args(), "21");
    assert_eq!(Effect::Overline.clear_args(), "55");
    assert_eq!(Effect::Hidden.apply_escape(), "\x1b[8m");
}

#[test]
fn parser_grammar() {
    assert_eq!(
        Color::from_str("#ff8000"),
        Ok(Color::Rgb(RgbColor { red: 255, green: 128, blue: 0 }))
    );
    assert_eq!(
        Color::from_str("#AbCdEf"),
        Ok(Color::Rgb(RgbColor { red: 0xab, green: 0xcd, blue: 0xef }))
    );
    assert_eq!(Color::from_str("red"), Ok(Color::Ansi(AnsiColor::Red)));
    assert_eq!(Color::from_str("purple"), Ok(Color::Ansi(AnsiColor::Magenta)));
    assert_eq!(
        Color::from_str("bright blue"),
        Ok(Color::Ansi(AnsiColor::BrightBlue))
    );
    assert_eq!(
        Color::from_str("bright magenta"),
        Ok(Color::Ansi(AnsiColor::BrightMagenta))
    );
    assert_eq!(Color::from_str("#a"), Ok(Color::Xterm(XtermColor::from_code(10))));
    assert_eq!(Color::from_str("#ff"), Ok(Color::Xterm(XtermColor::from_code(255))));
    assert_eq!(Color::from_str("7"), Ok(Color::Xterm(XtermColor::from_code(7))));
    assert_eq!(Color::from_str("12"), Ok(Color::Xterm(XtermColor::from_code(12))));
    assert_eq!(Color::from_str("255"), Ok(Color::Xterm(XtermColor::from_code(255))));
    assert_eq!(Color::from_str("256"), Err(ParseColorError::U8Overflow));
    assert_eq!(Color::from_str("999"), Err(ParseColorError::U8Overflow));
    assert_eq!(Color::from_str("xyz"), Err(ParseColorError::UnknownColor));
    assert_eq!(Color::from_str("Red"), Err(ParseColorError::UnknownColor));
    assert_eq!(Color::from_str(""), Err(ParseColorError::UnknownColor));
    assert_eq!(Color::from_str("1234"), Err(ParseColorError::UnknownColor));
    assert_eq!(Color::from_str("#g"), Err(ParseColorError::InvalidHexDigit));
    assert_eq!(Color::from_str("#12345g"), Err(ParseColorError::InvalidHexDigit));
    assert_eq!(
        Color::from_str("a much longer text than any color"),
        Err(ParseColorError::UnknownColor)
    );
    assert_eq!("#0000ff".parse::<Color>(), Color::from_str("#0000ff"));
}

#[test]
fn mode_outranks_stream() {
    let mut policy = ColorPolicy::new(false);
    let style = Style::new().fg(AnsiColor::Blue);
    set_coloring_mode(&mut policy, Mode::Always);
    assert_eq!(
        style.should_color(&policy, Some(Stream::NeverColor)),
        Coloring::Decided(true)
    );
    set_coloring_mode(&mut policy, Mode::Never);
    assert_eq!(
        style.should_color(&policy, Some(Stream::AlwaysColor)),
        Coloring::Decided(false)
    );
    set_coloring_mode(&mut policy, Mode::Detect);
    assert_eq!(
        style.should_color(&policy, Some(Stream::NeverColor)),
        Coloring::Decided(false)
    );
    assert_eq!(style.should_color(&policy, None), Coloring::Decided(true));
    set_default_stream(&mut policy, Stream::NeverColor);
    assert_eq!(get_default_stream(&policy), Stream::NeverColor);
    assert_eq!(style.should_color(&policy, None), Coloring::Decided(false));
}

#[test]
fn stripped_colors_win() {
    let mut policy = ColorPolicy::new(true);
    set_coloring_mode(&mut policy, Mode::Always);
    assert_eq!(get_coloring_mode(&policy), Mode::Never);
    assert_eq!(
        policy.should_color(Some(Stream::AlwaysColor), &[]),
        Coloring::Decided(false)
    );
    assert_eq!(policy.replace(Mode::Always), Mode::Never);
    assert_eq!(policy.compare_and_set(Mode::Never, Mode::Always), Ok(()));
    assert_eq!(get_coloring_mode(&policy), Mode::Never);
}

#[test]
fn replace_and_compare_and_set() {
    let mut policy = ColorPolicy::new(false);
    assert_eq!(get_coloring_mode(&policy), Mode::Detect);
    assert_eq!(policy.replace(Mode::Always), Mode::Detect);
    assert_eq!(policy.compare_and_set(Mode::Never, Mode::Detect), Err(Mode::Always));
    assert_eq!(get_coloring_mode(&policy), Mode::Always);
    assert_eq!(policy.compare_and_set(Mode::Always, Mode::Never), Ok(()));
    assert_eq!(get_coloring_mode(&policy), Mode::Never);
}

fn env(no: Option<&str>, always: Option<&str>, cli: Option<&str>, force: Option<&str>) -> ColorEnv {
    ColorEnv {
        no_color: no.map(String::from),
        always_color: always.map(String::from),
        clicolor_force: cli.map(String::from),
        force_color: force.map(String::from),
    }
}

#[test]
fn mode_from_environment() {
    assert_eq!(Mode::from_env(&env(None, None, None, None)), None);
    assert_eq!(Mode::from_env(&env(Some("1"), Some("1"), None, None)), Some(Mode::Never));
    assert_eq!(Mode::from_env(&env(Some("0"), Some("1"), None, None)), Some(Mode::Always));
    assert_eq!(Mode::from_env(&env(Some(""), None, None, None)), Some(Mode::Never));
    assert_eq!(Mode::from_env(&env(None, None, Some("yes"), None)), Some(Mode::Always));
    assert_eq!(Mode::from_env(&env(None, Some("0"), Some("0"), Some("true"))), Some(Mode::Always));
    assert_eq!(Mode::from_env(&env(None, Some("0"), Some("0"), Some("0"))), None);

    let mut policy = ColorPolicy::new(false);
    set_coloring_mode_from_env(&mut policy, &env(None, None, None, Some("1")));
    assert_eq!(get_coloring_mode(&policy), Mode::Always);
    set_coloring_mode_from_env(&mut policy, &env(None, None, None, None));
    assert_eq!(get_coloring_mode(&policy), Mode::Always);
    set_coloring_mode_from_env(&mut policy, &env(Some("1"), None, None, None));
    assert_eq!(get_coloring_mode(&policy), Mode::Never);
}

#[test]
fn detection_runs_once_per_stream() {
    let mut policy = ColorPolicy::new(false);
    let style = Style::new().fg(RgbColor { red: 1, green: 2, blue: 3 });
    let mut probes = 0;
    let mut decide = |policy: &mut ColorPolicy, stream: Stream| -> bool {
        loop {
            match style.should_color(policy, Some(stream)) {
                Coloring::Decided(b) => return b,
                Coloring::Detect(s) => {
                    probes += 1;
                    policy.record_support(
                        s,
                        ColorSupport { ansi: true, xterm: true, rgb: false },
                    );
                }
            }
        }
    };
    assert!(!decide(&mut policy, Stream::Stdout));
    assert!(!decide(&mut policy, Stream::Stdout));
    assert!(!decide(&mut policy, Stream::Stderr));
    assert!(!decide(&mut policy, Stream::Stderr));
    assert_eq!(probes, 2);
    let ansi_only = Style::new().fg(AnsiColor::Red);
    assert_eq!(
        ansi_only.should_color(&policy, Some(Stream::Stdout)),
        Coloring::Decided(true)
    );
}

#[test]
fn support_decides_per_kind() {
    let basic = ColorSupport { ansi: true, xterm: false, rgb: false };
    assert!(should_color_slow(basic, &[ColorKind::Ansi, ColorKind::NoColor]));
    assert!(!should_color_slow(basic, &[ColorKind::Ansi, ColorKind::Xterm]));
    assert!(should_color_slow(basic, &[]));
    let none = ColorSupport { ansi: false, xterm: false, rgb: false };
    assert!(should_color_slow(none, &[ColorKind::NoColor]));
    assert!(!should_color_slow(none, &[ColorKind::Rgb]));
}

#[test]
fn end_to_end_blue_dimmed() {
    let style = Style::new().fg(Color::Ansi(AnsiColor::Blue)).dimmed();
    assert_eq!(style.apply(), "\x1b[34;2m");
    assert_eq!(style.clear(), "\x1b[39;22m");
}

#[test]
fn rgb_background_fragment() {
    let style = Style::new().bg(RgbColor { red: 255, green: 128, blue: 0 });
    assert_eq!(style.apply(), "\x1b[48;2;255;128;0m");
    assert_eq!(style.clear(), "\x1b[49m");
}

#[test]
fn underline_color_needs_underline_effect() {
    let uc = RgbColor { red: 1, green: 2, blue: 3 };
    let s = Style::new().underline_color(uc).underline();
    assert_eq!(s.apply(), "\x1b[58;2;1;2;3m\x1b[4m");
    assert_eq!(s.clear(), "\x1b[59m\x1b[24m");
    let d = Style::new().underline_color(uc).double_underline().fg(AnsiColor::Red);
    assert_eq!(d.apply(), "\x1b[58;2;1;2;3m\x1b[31;21m");
    assert_eq!(d.clear(), "\x1b[59m\x1b[39;24m");
    let none = Style::new().underline_color(uc).bold();
    assert_eq!(none.apply(), "\x1b[1m");
    assert_eq!(none.clear(), "\x1b[22m");
}

#[test]
fn both_colors_combine() {
    let s = Style::new()
        .fg(XtermColor::from_code(208))
        .bg(AnsiColor::BrightBlack)
        .italics()
        .strikethrough();
    assert_eq!(s.apply(), "\x1b[38;5;208;100;3;9m");
    assert_eq!(s.clear(), "\x1b[39;49;23;29m");
    let no_fg = s.fg(NoColor);
    assert_eq!(no_fg.apply(), "\x1b[100;3;9m");
    let cleared = s.fg(None::<Color>).bg(NoColor).clear_effects();
    assert!(cleared.is_plain());
}

#[test]
fn effect_flags_operations() {
    let mut f = EffectFlags::new();
    assert!(f.is_plain());
    f.set(Effect::Italic);
    f.set(Effect::Bold);
    assert!(f.is(Effect::Bold) && f.is(Effect::Italic) && !f.is(Effect::Blink));
    f.toggle(Effect::Blink);
    f.toggle(Effect::Bold);
    assert!(!f.is(Effect::Bold) && f.is(Effect::Blink));
    f.unset(Effect::Italic);
    assert!(!f.is(Effect::Italic));
    assert!(f.is_any(EffectFlags::from_array([Effect::Blink, Effect::Hidden])));
    assert!(!f.is_any(EffectFlags::from_array([Effect::Hidden])));
    assert!(EffectFlags::all().is_all());
    assert!(!EffectFlags::all().without(Effect::SubScript).is_all());
    assert_eq!(
        EffectFlags::new().with(Effect::Overline).toggled(Effect::Overline),
        EffectFlags::new()
    );
    let mut it = EffectFlags::from_slice(&[Effect::SubScript, Effect::Dimmed, Effect::Reversed]).iter();
    let mut seen = Vec::new();
    while let Some(e) = it.next() {
        seen.push(e);
    }
    assert_eq!(seen, vec![Effect::Dimmed, Effect::Reversed, Effect::SubScript]);
    let s = Style::new().effects(&[Effect::Hidden, Effect::Bold]);
    assert!(s.is(Effect::Hidden) && s.is(Effect::Bold) && !s.is(Effect::Dimmed));
    let t = Style::new().effects_array([Effect::Overline]).toggled(Effect::Overline).with(Effect::Reversed);
    assert_eq!(t.apply(), "\x1b[7m");
}

#[test]
fn styled_value_wraps_text() {
    let v = StyledValue::new(42, Style::new().fg(AnsiColor::Red).bold(), None);
    let mut out = String::from(">");
    v.fmt_with(true, "42", &mut out);
    assert_eq!(out, ">\x1b[31;1m42\x1b[39;22m");
    let mut plain = String::new();
    v.fmt_with(false, "42", &mut plain);
    assert_eq!(plain, "42");
    let policy = ColorPolicy::new(false);
    assert_eq!(v.should_color(&policy), Coloring::Decided(true));
    assert_eq!(v.value, 42);
}

#[test]
fn defaults_and_messages() {
    assert_eq!(Style::default(), Style::new());
    assert!(EffectFlags::default().is_plain());
    assert_eq!(
        colorize::mode::ModeFromStrError.message(),
        "Invalid mode: valid options include \"detect\", \"always\", \"never\""
    );
    assert_eq!(
        colorize::mode::StreamFromStrError.message(),
        "Invalid stream: valid options include \"stdout\", \"stderr\", \"always\", \"never\""
    );
    assert_eq!(colorize::rgb::Rgb::<1, 2, 3>::dynamic(), RgbColor { red: 1, green: 2, blue: 3 });
    assert_eq!(AnsiColor::Cyan.into_color(), Color::Ansi(AnsiColor::Cyan));
}
