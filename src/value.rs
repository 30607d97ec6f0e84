//! Writing a styled value.

use vstd::prelude::*;

use crate::mode::{coloring, ColorPolicy, Coloring, Stream};
use crate::style::{apply_text, clear_text, style_kinds, Style};
use crate::StyledValue;

verus! {

/// Relies on `String::push_str`: the text is appended at the end.
#[verifier::external_body]
fn push_str(out: &mut String, text: &str)
    ensures
        final(out)@ == old(out)@ + text@,
{
    out.push_str(text)
}

/// The text of a value that formats as `text` under `style`: framed by the
/// style's apply and clear sequences where it is colored, bare where not.
pub open spec fn styled_text(style: Style, colored: bool, text: Seq<char>) -> Seq<char> {
    if colored {
        apply_text(style) + text + clear_text(style)
    } else {
        text
    }
}

impl<T> StyledValue<T> {
    /// Create a new styled value
    pub fn new(value: T, style: Style, stream: Option<Stream>) -> (r: Self)
        ensures
            r.value == value,
            r.style == style,
            r.stream == stream,
    {
        StyledValue { value, style, stream }
    }

    /// Should this value be colored under `policy`
    pub fn should_color(&self, policy: &ColorPolicy) -> (r: Coloring)
        ensures
            r == coloring(policy@, self.stream, style_kinds(self.style)),
    {
        self.style.should_color(policy, self.stream)
    }

    /// Writes the styled value, given the text that the value formats as and
    /// whether it is colored
    pub fn fmt_with(&self, colored: bool, text: &str, out: &mut String)
        ensures
            final(out)@ == old(out)@ + styled_text(self.style, colored, text@),
    {
        if colored {
            self.style.fmt_apply(out);
        }
        push_str(out, text);
        if colored {
            self.style.fmt_clear(out);
        }
        assert(out@ =~= old(out)@ + styled_text(self.style, colored, text@));
    }
}

} // verus!
