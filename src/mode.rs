//! The policy that decides whether styled values get colored
//!
//! There are three levels, in order of precedence
//! * the build switch that strips all colors, fixed when a [`ColorPolicy`] is made
//! * the global coloring [`Mode`]: [`set_coloring_mode`], [`set_coloring_mode_from_env`]
//! * the stream chosen per value, or else the default stream ([`set_default_stream`])
//!
//! A higher level forces coloring on or off whatever the lower ones say. Where
//! the stream is a real one (stdout or stderr), what the terminal supports is
//! detected once and kept.

use vstd::prelude::*;

verus! {

/// The coloring mode
#[derive(Clone, Copy, Debug, PartialEq, Eq, Structural)]
pub enum Mode {
    /// Use the stream of each value to pick when to color (by default always color)
    Detect,
    /// Always color styled values
    Always,
    /// Never color styled values
    Never,
}

/// An error if parsing a mode from a string fails
#[derive(Clone, Copy, Debug, PartialEq, Eq, Structural)]
pub struct ModeFromStrError;

impl ModeFromStrError {
    /// The message of this error
    pub fn message(&self) -> (r: String)
        ensures
            r@ == "Invalid mode: valid options include \"detect\", \"always\", \"never\""@,
    {
        "Invalid mode: valid options include \"detect\", \"always\", \"never\"".to_owned()
    }
}

/// The stream to detect when to color on
#[derive(Clone, Copy, Debug, PartialEq, Eq, Hash, Structural)]
pub enum Stream {
    /// Detect what standard output supports
    Stdout,
    /// Detect what standard error supports
    Stderr,
    /// Always color; the default stream
    AlwaysColor,
    /// Never color
    NeverColor,
}

/// An error if parsing a stream from a string fails
#[derive(Clone, Copy, Debug, PartialEq, Eq, Structural)]
pub struct StreamFromStrError;

impl StreamFromStrError {
    /// The message of this error
    pub fn message(&self) -> (r: String)
        ensures
            r@ == "Invalid stream: valid options include \"stdout\", \"stderr\", \"always\", \"never\""@,
    {
        "Invalid stream: valid options include \"stdout\", \"stderr\", \"always\", \"never\"".to_owned()
    }
}

/// The coloring kinds
#[derive(Clone, Copy, Debug, PartialEq, Eq, Hash, Structural)]
pub enum ColorKind {
    /// A basic ANSI color
    Ansi,
    /// A 256-color
    Xterm,
    /// A 24-bit color
    Rgb,
    /// No color at all
    NoColor,
}

/// The character that an ASCII byte folds to when case is ignored: letters
/// fold to lower case.
pub open spec fn fold_case(c: u8) -> char {
    (c | 0x20) as char
}

/// Does `s` spell the lower-case word `w`, ignoring ASCII case.
pub open spec fn spells(s: Seq<u8>, w: Seq<char>) -> bool {
    &&& s.len() == w.len()
    &&& forall|i: int| 0 <= i < s.len() ==> fold_case(#[trigger] s[i]) == w[i]
}

fn spells_word(s: &[u8], w: &[char]) -> (r: bool)
    ensures
        r == spells(s@, w@),
{
    if s.len() != w.len() {
        return false;
    }
    let mut i: usize = 0;
    while i < s.len()
        invariant
            i <= s@.len(),
            s@.len() == w@.len(),
            forall|k: int| 0 <= k < i ==> fold_case(#[trigger] s@[k]) == w@[k],
        decreases s@.len() - i,
    {
        if (s[i] | 0x20) as char != w[i] {
            return false;
        }
        i = i + 1;
    }
    true
}

/// The mode that `s` names, ignoring ASCII case.
pub open spec fn mode_named(s: Seq<u8>) -> Option<Mode> {
    if spells(s, seq!['d', 'e', 't', 'e', 'c', 't']) {
        Some(Mode::Detect)
    } else if spells(s, seq!['a', 'l', 'w', 'a', 'y', 's']) {
        Some(Mode::Always)
    } else if spells(s, seq!['n', 'e', 'v', 'e', 'r']) {
        Some(Mode::Never)
    } else {
        None
    }
}

/// The stream that `s` names, ignoring ASCII case.
pub open spec fn stream_named(s: Seq<u8>) -> Option<Stream> {
    if spells(s, seq!['s', 't', 'd', 'o', 'u', 't']) {
        Some(Stream::Stdout)
    } else if spells(s, seq!['s', 't', 'd', 'e', 'r', 'r']) {
        Some(Stream::Stderr)
    } else if spells(s, seq!['a', 'l', 'w', 'a', 'y', 's']) {
        Some(Stream::AlwaysColor)
    } else if spells(s, seq!['n', 'e', 'v', 'e', 'r']) {
        Some(Stream::NeverColor)
    } else {
        None
    }
}

impl Mode {
    /// Parse the mode from some ascii encoded bytes: `detect`, `always` or
    /// `never`, in any case
    pub fn from_ascii_bytes(s: &[u8]) -> (r: Result<Mode, ModeFromStrError>)
        ensures
            r matches Ok(m) ==> mode_named(s@) == Some(m),
            r is Err <==> mode_named(s@) is None,
    {
        if spells_word(s, &['d', 'e', 't', 'e', 'c', 't']) {
            Ok(Mode::Detect)
        } else if spells_word(s, &['a', 'l', 'w', 'a', 'y', 's']) {
            Ok(Mode::Always)
        } else if spells_word(s, &['n', 'e', 'v', 'e', 'r']) {
            Ok(Mode::Never)
        } else {
            Err(ModeFromStrError)
        }
    }
}

impl Stream {
    /// Parse the stream from some ascii encoded bytes: `stdout`, `stderr`,
    /// `always` or `never`, in any case
    pub fn from_ascii_bytes(s: &[u8]) -> (r: Result<Stream, StreamFromStrError>)
        ensures
            r matches Ok(m) ==> stream_named(s@) == Some(m),
            r is Err <==> stream_named(s@) is None,
    {
        if spells_word(s, &['s', 't', 'd', 'o', 'u', 't']) {
            Ok(Stream::Stdout)
        } else if spells_word(s, &['s', 't', 'd', 'e', 'r', 'r']) {
            Ok(Stream::Stderr)
        } else if spells_word(s, &['a', 'l', 'w', 'a', 'y', 's']) {
            Ok(Stream::AlwaysColor)
        } else if spells_word(s, &['n', 'e', 'v', 'e', 'r']) {
            Ok(Stream::NeverColor)
        } else {
            Err(StreamFromStrError)
        }
    }
}

/// What a terminal stream can show
#[derive(Clone, Copy, Debug, PartialEq, Eq, Structural)]
pub struct ColorSupport {
    /// Basic ANSI colors
    pub ansi: bool,
    /// 256-color palette
    pub xterm: bool,
    /// 24-bit colors
    pub rgb: bool,
}

/// Can a stream with `support` show a color of `kind`.
pub open spec fn kind_supported(support: ColorSupport, kind: ColorKind) -> bool {
    match kind {
        ColorKind::Ansi => support.ansi,
        ColorKind::Xterm => support.xterm,
        ColorKind::Rgb => support.rgb,
        ColorKind::NoColor => true,
    }
}

/// Can a stream with `support` show every one of `kinds`.
pub open spec fn supports_all(support: ColorSupport, kinds: Seq<ColorKind>) -> bool {
    forall|i: int| 0 <= i < kinds.len() ==> kind_supported(support, #[trigger] kinds[i])
}

/// Decide, from what a stream supports, whether to color on it: only where it
/// can show every kind of color in use
pub fn should_color_slow(support: ColorSupport, kinds: &[ColorKind]) -> (r: bool)
    ensures
        r == supports_all(support, kinds@),
{
    let mut i: usize = 0;
    while i < kinds.len()
        invariant
            i <= kinds@.len(),
            forall|k: int| 0 <= k < i ==> kind_supported(support, #[trigger] kinds@[k]),
        decreases kinds@.len() - i,
    {
        let supported = match kinds[i] {
            ColorKind::Ansi => support.ansi,
            ColorKind::Xterm => support.xterm,
            ColorKind::Rgb => support.rgb,
            ColorKind::NoColor => true,
        };
        if !supported {
            return false;
        }
        i = i + 1;
    }
    true
}

/// The values of the environment variables that bear on coloring, each `None`
/// where it is not set
#[derive(Clone, Debug)]
pub struct ColorEnv {
    /// `NO_COLOR`
    pub no_color: Option<String>,
    /// `ALWAYS_COLOR`
    pub always_color: Option<String>,
    /// `CLICOLOR_FORCE`
    pub clicolor_force: Option<String>,
    /// `FORCE_COLOR`
    pub force_color: Option<String>,
}

/// Is a variable set to something other than `0`.
pub open spec fn set_nonzero(v: Option<String>) -> bool {
    match v {
        Some(s) => s@ != seq!['0'],
        None => false,
    }
}

/// The mode that the environment asks for, if any.
pub open spec fn env_mode(env: ColorEnv) -> Option<Mode> {
    if set_nonzero(env.no_color) {
        Some(Mode::Never)
    } else if set_nonzero(env.always_color) || set_nonzero(env.clicolor_force) || set_nonzero(
        env.force_color,
    ) {
        Some(Mode::Always)
    } else {
        None
    }
}

fn is_set_nonzero(v: &Option<String>) -> (r: bool)
    ensures
        r == set_nonzero(*v),
{
    match v {
        Some(s) => {
            let t = s.as_str();
            let n = t.unicode_len();
            if n != 1 {
                return true;
            }
            let c = t.get_char(0);
            if c == '0' {
                assert(t@ =~= seq!['0']);
                false
            } else {
                true
            }
        },
        None => false,
    }
}

impl Mode {
    /// The mode that the environment asks for
    ///
    /// * If `NO_COLOR` is set to a value other than `0`, [`Mode::Never`] is returned
    /// * Else, if `ALWAYS_COLOR`, `CLICOLOR_FORCE` or `FORCE_COLOR` is set to a value other than
    ///   `0`, [`Mode::Always`] is returned
    /// * otherwise None is returned
    pub fn from_env(env: &ColorEnv) -> (r: Option<Mode>)
        ensures
            r == env_mode(*env),
    {
        if is_set_nonzero(&env.no_color) {
            Some(Mode::Never)
        } else if is_set_nonzero(&env.always_color) || is_set_nonzero(&env.clicolor_force)
            || is_set_nonzero(&env.force_color) {
            Some(Mode::Always)
        } else {
            None
        }
    }
}

/// The state of a [`ColorPolicy`].
pub struct PolicyState {
    /// Are colors stripped whatever else is set
    pub strip_colors: bool,
    /// The stored coloring mode
    pub mode: Mode,
    /// The stream of values that choose none
    pub default_stream: Stream,
    /// What standard output supports, once detected
    pub stdout_support: Option<ColorSupport>,
    /// What standard error supports, once detected
    pub stderr_support: Option<ColorSupport>,
}

/// The answer to "should this be colored?"
#[derive(Clone, Copy, Debug, PartialEq, Eq, Structural)]
pub enum Coloring {
    /// The answer
    Decided(bool),
    /// The answer depends on what this stream supports, which is not known yet:
    /// detect it and record it with [`ColorPolicy::record_support`]
    Detect(Stream),
}

/// The mode in force: never where colors are stripped.
pub open spec fn effective_mode(p: PolicyState) -> Mode {
    if p.strip_colors {
        Mode::Never
    } else {
        p.mode
    }
}

/// The stream that decides for a value that chose `stream`.
pub open spec fn resolved_stream(p: PolicyState, stream: Option<Stream>) -> Stream {
    match stream {
        Some(s) => s,
        None => p.default_stream,
    }
}

/// What is known of a real stream.
pub open spec fn known_support(p: PolicyState, s: Stream) -> Option<ColorSupport> {
    match s {
        Stream::Stdout => p.stdout_support,
        Stream::Stderr => p.stderr_support,
        _ => None,
    }
}

/// Whether a value that chose `stream` and uses colors of `kinds` is colored.
pub open spec fn coloring(p: PolicyState, stream: Option<Stream>, kinds: Seq<ColorKind>) -> Coloring {
    match effective_mode(p) {
        Mode::Always => Coloring::Decided(true),
        Mode::Never => Coloring::Decided(false),
        Mode::Detect => {
            let s = resolved_stream(p, stream);
            match s {
                Stream::AlwaysColor => Coloring::Decided(true),
                Stream::NeverColor => Coloring::Decided(false),
                _ => match known_support(p, s) {
                    Some(support) => Coloring::Decided(supports_all(support, kinds)),
                    None => Coloring::Detect(s),
                },
            }
        },
    }
}

/// The process-wide coloring policy: the mode, the default stream and what
/// each real stream was detected to support
pub struct ColorPolicy {
    strip_colors: bool,
    mode: Mode,
    default_stream: Stream,
    stdout_support: Option<ColorSupport>,
    stderr_support: Option<ColorSupport>,
}

impl View for ColorPolicy {
    type V = PolicyState;

    closed spec fn view(&self) -> PolicyState {
        PolicyState {
            strip_colors: self.strip_colors,
            mode: self.mode,
            default_stream: self.default_stream,
            stdout_support: self.stdout_support,
            stderr_support: self.stderr_support,
        }
    }
}

impl ColorPolicy {
    /// A policy in `Detect` mode, with `AlwaysColor` as the default stream and
    /// nothing detected yet; `strip_colors` turns all coloring off for good
    pub fn new(strip_colors: bool) -> (r: Self)
        ensures
            r@.strip_colors == strip_colors,
            r@.mode == Mode::Detect,
            r@.default_stream == Stream::AlwaysColor,
            r@.stdout_support is None,
            r@.stderr_support is None,
    {
        ColorPolicy {
            strip_colors,
            mode: Mode::Detect,
            default_stream: Stream::AlwaysColor,
            stdout_support: None,
            stderr_support: None,
        }
    }

    /// Replace the mode, returning the one in force before
    pub fn replace(&mut self, mode: Mode) -> (r: Mode)
        ensures
            r == effective_mode(old(self)@),
            final(self)@ == (PolicyState {
                mode: if old(self)@.strip_colors {
                    old(self)@.mode
                } else {
                    mode
                },
                ..old(self)@
            }),
    {
        let before = get_coloring_mode(self);
        set_coloring_mode(self, mode);
        before
    }

    /// Set the mode to `new` if the mode in force is `expected`; else return the
    /// mode in force
    pub fn compare_and_set(&mut self, expected: Mode, new: Mode) -> (r: Result<(), Mode>)
        ensures
            effective_mode(old(self)@) == expected ==> r is Ok && final(self)@ == (PolicyState {
                mode: if old(self)@.strip_colors {
                    old(self)@.mode
                } else {
                    new
                },
                ..old(self)@
            }),
            effective_mode(old(self)@) != expected ==> r == Err::<(), Mode>(
                effective_mode(old(self)@),
            ) && final(self)@ == old(self)@,
    {
        let current = get_coloring_mode(self);
        if current == expected {
            set_coloring_mode(self, new);
            Ok(())
        } else {
            Err(current)
        }
    }

    /// Record what a real stream was detected to support
    pub fn record_support(&mut self, stream: Stream, support: ColorSupport)
        ensures
            stream == Stream::Stdout ==> final(self)@ == (PolicyState {
                stdout_support: Some(support),
                ..old(self)@
            }),
            stream == Stream::Stderr ==> final(self)@ == (PolicyState {
                stderr_support: Some(support),
                ..old(self)@
            }),
            stream != Stream::Stdout && stream != Stream::Stderr ==> final(self)@ == old(self)@,
    {
        match stream {
            Stream::Stdout => self.stdout_support = Some(support),
            Stream::Stderr => self.stderr_support = Some(support),
            _ => {},
        }
    }

    /// Should a value that chose `stream`, and uses colors of `kinds`, be colored
    pub fn should_color(&self, stream: Option<Stream>, kinds: &[ColorKind]) -> (r: Coloring)
        ensures
            r == coloring(self@, stream, kinds@),
    {
        match get_coloring_mode(self) {
            Mode::Always => return Coloring::Decided(true),
            Mode::Never => return Coloring::Decided(false),
            Mode::Detect => {},
        }
        let s = match stream {
            Some(s) => s,
            None => get_default_stream(self),
        };
        let known = match s {
            Stream::AlwaysColor => return Coloring::Decided(true),
            Stream::NeverColor => return Coloring::Decided(false),
            Stream::Stdout => self.stdout_support,
            Stream::Stderr => self.stderr_support,
        };
        match known {
            Some(support) => Coloring::Decided(should_color_slow(support, kinds)),
            None => Coloring::Detect(s),
        }
    }
}

/// Set the global coloring mode (this allows forcing colors on or off despite
/// stream preferences); nothing changes where colors are stripped
pub fn set_coloring_mode(policy: &mut ColorPolicy, mode: Mode)
    ensures
        final(policy)@ == (PolicyState {
            mode: if old(policy)@.strip_colors {
                old(policy)@.mode
            } else {
                mode
            },
            ..old(policy)@
        }),
{
    if policy.strip_colors {
        return ;
    }
    policy.mode = mode;
}

/// Set the coloring mode that the environment asks for, if it asks for one
/// (see [`Mode::from_env`]); otherwise the mode is left unchanged
pub fn set_coloring_mode_from_env(policy: &mut ColorPolicy, env: &ColorEnv)
    ensures
        final(policy)@ == (PolicyState {
            mode: match env_mode(*env) {
                Some(m) if !old(policy)@.strip_colors => m,
                _ => old(policy)@.mode,
            },
            ..old(policy)@
        }),
{
    if let Some(mode) = Mode::from_env(env) {
        set_coloring_mode(policy, mode);
    }
}

/// Get the global coloring mode
pub fn get_coloring_mode(policy: &ColorPolicy) -> (r: Mode)
    ensures
        r == effective_mode(policy@),
{
    if policy.strip_colors {
        return Mode::Never;
    }
    policy.mode
}

/// Set the default stream if one isn't chosen per value
pub fn set_default_stream(policy: &mut ColorPolicy, stream: Stream)
    ensures
        final(policy)@ == (PolicyState { default_stream: stream, ..old(policy)@ }),
{
    policy.default_stream = stream;
}

/// Get the default stream
pub fn get_default_stream(policy: &ColorPolicy) -> (r: Stream)
    ensures
        r == policy@.default_stream,
{
    policy.default_stream
}

/// The mode outranks the stream a value chose: in `Always` mode even a value
/// on the `NeverColor` stream is colored, and in `Detect` mode a value on the
/// `NeverColor` stream never is.
pub proof fn mode_outranks_stream(p: PolicyState, kinds: Seq<ColorKind>)
    ensures
        effective_mode(p) == Mode::Always ==> coloring(p, Some(Stream::NeverColor), kinds)
            == Coloring::Decided(true),
        effective_mode(p) == Mode::Never ==> coloring(p, Some(Stream::AlwaysColor), kinds)
            == Coloring::Decided(false),
        effective_mode(p) == Mode::Detect ==> coloring(p, Some(Stream::NeverColor), kinds)
            == Coloring::Decided(false),
{
}

/// Detection happens at most once per stream: once what a stream supports is
/// recorded, no later question about that stream asks for detection again,
/// whatever colors are in use and whatever mode or default stream is set later.
pub proof fn detection_is_cached(
    p: PolicyState,
    stream: Option<Stream>,
    kinds: Seq<ColorKind>,
    support: ColorSupport,
    later_mode: Mode,
    later_default: Stream,
    later_kinds: Seq<ColorKind>,
)
    requires
        coloring(p, stream, kinds) is Detect,
    ensures
        ({
            let s = resolved_stream(p, stream);
            let q = if s == Stream::Stdout {
                PolicyState { stdout_support: Some(support), ..p }
            } else {
                PolicyState { stderr_support: Some(support), ..p }
            };
            &&& s == Stream::Stdout || s == Stream::Stderr
            &&& coloring(p, stream, kinds) == Coloring::Detect(s)
            &&& coloring(q, stream, later_kinds) == Coloring::Decided(
                supports_all(support, later_kinds),
            )
            &&& forall|m: Mode, d: Stream|
                !(#[trigger] coloring(
                    PolicyState { mode: m, default_stream: d, ..q },
                    Some(s),
                    later_kinds,
                ) is Detect)
        }),
{
}

impl core::str::FromStr for Mode {
    type Err = ModeFromStrError;

    fn from_str(s: &str) -> Result<Mode, ModeFromStrError> {
        Mode::from_ascii_bytes(s.as_bytes())
    }
}

impl core::str::FromStr for Stream {
    type Err = StreamFromStrError;

    fn from_str(s: &str) -> Result<Stream, StreamFromStrError> {
        Stream::from_ascii_bytes(s.as_bytes())
    }
}

} // verus!
