//! Parts of the Jupyter notebook `.ipynb` file format.
//!
//! This follows the official [nbformat v4].
//!
//! [nbformat v4]: https://github.com/jupyter/nbformat/blob/v5.10.4/nbformat/v4/nbformat.v4.schema.json

use vstd::prelude::*;
use vstd::string::*;

verus! {

/// Kernel specification metadata.
#[derive(Clone, Debug, PartialEq, Eq)]
pub struct KernelSpec {
    /// Name of the kernel specification.
    pub name: String,
    /// Display name of the kernel.
    pub display_name: String,
}

/// Represents a string or array of strings (multiline).
#[derive(Clone, Debug, PartialEq, Eq)]
pub enum MultilineString {
    /// Single-line string.
    Single(String),
    /// Multi-line array of strings.
    Multi(Vec<String>),
}

/// The lines written one after another with a line feed between them.
pub open spec fn joined_lines(lines: Seq<String>) -> Seq<char>
    decreases lines.len(),
{
    if lines.len() == 0 {
        Seq::empty()
    } else if lines.len() == 1 {
        lines[0]@
    } else {
        joined_lines(lines.drop_last()) + "\n"@ + lines.last()@
    }
}

impl MultilineString {
    /// The text that the value stands for: the single string, or the lines
    /// joined by line feeds.
    pub open spec fn text(self) -> Seq<char> {
        match self {
            MultilineString::Single(s) => s@,
            MultilineString::Multi(lines) => joined_lines(lines@),
        }
    }

    /// Turn the value into one string.
    pub fn into_string(self) -> (text: String)
        ensures
            text@ == self.text(),
    {
        match self {
            MultilineString::Single(s) => s,
            MultilineString::Multi(lines) => {
                let mut text = String::new();
                let mut i: usize = 0;
                assert(lines@.take(0) =~= Seq::<String>::empty());
                while i < lines.len()
                    invariant
                        i <= lines.len(),
                        text@ == joined_lines(lines@.take(i as int)),
                    decreases lines.len() - i,
                {
                    if i > 0 {
                        text.append("\n");
                    }
                    text.append(lines[i].as_str());
                    proof {
                        let upto = lines@.take(i + 1);
                        assert(upto.drop_last() =~= lines@.take(i as int));
                        assert(upto.last() == lines@[i as int]);
                        if i == 0 {
                            assert(text@ =~= lines@[0]@);
                        } else {
                            assert(text@ =~= joined_lines(lines@.take(i as int)) + "\n"@
                                + lines@[i as int]@);
                        }
                    }
                    i += 1;
                }
                assert(lines@.take(i as int) =~= lines@);
                text
            },
        }
    }
}

impl From<MultilineString> for String {
    /// Turn the value into one string, as [`MultilineString::into_string`]
    /// does.
    fn from(m: MultilineString) -> (text: String)
        ensures
            text@ == m.text(),
    {
        m.into_string()
    }
}

impl vstd::std_specs::convert::FromSpecImpl<MultilineString> for String {
    /// Nothing is promised through `from_spec`: what the conversion gives is
    /// stated by [`MultilineString::into_string`], over the text of the
    /// string.
    open spec fn obeys_from_spec() -> bool {
        false
    }

    /// A string that holds the text of the value: the single string itself,
    /// the one line of a one-line value itself, and some string with the
    /// joined lines otherwise.
    open spec fn from_spec(m: MultilineString) -> String {
        match m {
            MultilineString::Single(s) => s,
            MultilineString::Multi(lines) => if lines@.len() == 1 {
                lines@[0]
            } else {
                choose|text: String| text@ == joined_lines(lines@)
            },
        }
    }
}

} // verus!
