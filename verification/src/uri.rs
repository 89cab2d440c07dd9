//! Identifiers of documents, as the client names them.

use vstd::prelude::*;
use vstd::std_specs::cmp::PartialEqSpecImpl;
use vstd::string::StringExecFns;
use vstd::string::StringSliceAdditionalSpecFns;
use vstd::utf8::encode_utf8;

verus! {

/// The path component of the URI reference that `text` is; none where `text`
/// is no URI reference.
pub uninterp spec fn uri_path_of(text: Seq<char>) -> Option<Seq<char>>;

/// The longest text that is read as a URI, in bytes.
pub const MAX_URI_LENGTH: usize = 0x7fff_ffff;

/// Whether `text` is read as a URI: it is a URI reference of no more than
/// [`MAX_URI_LENGTH`] bytes.
pub open spec fn reads_as_uri(text: Seq<char>) -> bool {
    uri_path_of(text).is_some() && encode_utf8(text).len() <= MAX_URI_LENGTH
}

/// Parses `text` as `lsp_types::Uri` does from a string, and hands out the path that
/// `fluent_uri::Uri::path` finds in it.
#[verifier::external_body]
fn path_component(text: &str) -> (r: Option<String>)
    requires
        text.spec_bytes().len() <= MAX_URI_LENGTH,
    ensures
        match r {
            Some(path) => uri_path_of(text@) == Some(path@),
            None => uri_path_of(text@).is_none(),
        },
{
    match text.parse::<lsp_types::Uri>() {
        Ok(uri) => Some(uri.path().as_str().to_owned()),
        Err(_) => None,
    }
}

/// A URI reference, with the path found in it.
#[derive(Debug, Hash)]
pub struct Uri {
    text: String,
    path: String,
}

impl View for Uri {
    type V = Seq<char>;

    closed spec fn view(&self) -> Seq<char> {
        self.text@
    }
}

/// Whether the last byte of `path` is a slash.
pub open spec fn ends_with_slash(path: Seq<u8>) -> bool {
    path.len() > 0 && path.last() == 47u8
}

impl Uri {
    #[verifier::type_invariant]
    spec fn well_formed(self) -> bool {
        uri_path_of(self.text@) == Some(self.path@)
    }

    /// The path component.
    pub closed spec fn path_view(&self) -> Seq<char> {
        self.path@
    }

    /// The bytes of the path component.
    pub open spec fn path_bytes(&self) -> Seq<u8> {
        encode_utf8(self.path_view())
    }

    /// Whether the path component is the one found in the text.
    pub open spec fn valid(&self) -> bool {
        uri_path_of(self@) == Some(self.path_view())
    }

    /// Reads `text` as a URI reference. Text that is none, or longer than
    /// [`MAX_URI_LENGTH`] bytes, gives nothing.
    pub fn parse(text: &str) -> (r: Option<Uri>)
        ensures
            match r {
                Some(uri) => uri@ == text@ && uri.valid() && reads_as_uri(text@),
                None => !reads_as_uri(text@),
            },
    {
        if text.as_bytes().len() > MAX_URI_LENGTH {
            return None;
        }
        match path_component(text) {
            Some(path) => Some(Uri { text: text.to_owned(), path }),
            None => None,
        }
    }

    pub fn as_str(&self) -> (r: &str)
        ensures
            r@ == self@,
    {
        self.text.as_str()
    }

    pub fn path(&self) -> (r: &str)
        ensures
            r@ == self.path_view(),
            r.spec_bytes() == self.path_bytes(),
            self.valid(),
    {
        proof {
            use_type_invariant(self);
        }
        self.path.as_str()
    }

    /// Whether both are the same text.
    pub fn same(&self, other: &Uri) -> (r: bool)
        ensures
            r == (self@ == other@),
    {
        self.text == other.text
    }

    /// A copy of the same text.
    pub fn duplicate(&self) -> (r: Uri)
        ensures
            r == *self,
    {
        proof {
            use_type_invariant(self);
        }
        Uri { text: self.text.clone(), path: self.path.clone() }
    }

    /// Whether the path component ends with a slash.
    pub fn is_directory(&self) -> (r: bool)
        ensures
            r == ends_with_slash(self.path_bytes()),
    {
        let bytes = self.path.as_str().as_bytes();
        bytes.len() > 0 && bytes[bytes.len() - 1] == 47u8
    }
}

impl Clone for Uri {
    fn clone(&self) -> (r: Self)
        ensures
            r == *self,
    {
        self.duplicate()
    }
}

impl PartialEq for Uri {
    fn eq(&self, other: &Self) -> (r: bool) {
        self.same(other)
    }
}

impl PartialEqSpecImpl for Uri {
    open spec fn obeys_eq_spec() -> bool {
        true
    }

    open spec fn eq_spec(&self, other: &Self) -> bool {
        self@ == other@
    }
}

impl Eq for Uri {

}

/// `uri` with a slash behind it, unless its path ends with one already.
/// Nothing where the longer text is no URI reference.
pub fn ensure_trailing_slash(uri: Uri) -> (r: Option<Uri>)
    ensures
        ends_with_slash(uri.path_bytes()) ==> r == Some(uri) && uri.valid(),
        !ends_with_slash(uri.path_bytes()) ==> match r {
            Some(slashed) => slashed@ == uri@ + "/"@ && slashed.valid() && reads_as_uri(
                uri@ + "/"@,
            ),
            None => !reads_as_uri(uri@ + "/"@),
        },
{
    if uri.is_directory() {
        proof {
            use_type_invariant(&uri);
        }
        Some(uri)
    } else {
        let text = uri.text.clone().concat("/");
        Uri::parse(text.as_str())
    }
}

} // verus!
