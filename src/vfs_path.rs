//! File identities: normalised absolute paths and virtual paths.
use vstd::prelude::*;

use crate::path_text::{
    component_prefix, component_prefix_text, has_prefix, has_prefix_text, join_path_text,
    join_text, lemma_last_index_of, lemma_render_starts_at_root, name_and_extension_of,
    name_and_extension_text, normalize_path_text, normalize_text, parent_of, parent_text,
    real_parent, resolve_pieces, split_slash, strip_components, strip_components_text,
};
use crate::text::{chars_of, string_of};

verus! {

/// The mathematical value of a file identity: whether it is a real path,
/// and its text.
pub type PathView = (bool, Seq<char>);

/// An opaque path of a buffer that has no file on disk.
#[derive(Debug, Clone, Ord, PartialOrd, Eq, PartialEq, Hash)]
pub struct VirtualPath(pub String);

/// An absolute, `/`-separated filesystem path.
#[derive(Debug, Ord, PartialOrd, Eq, PartialEq, Hash)]
pub struct AbsPathBuf {
    path: String,
}

/// The two kinds of file identity.
#[derive(Debug, Clone, Ord, PartialOrd, Eq, PartialEq, Hash)]
pub enum VirtualFsPathRepr {
    VirtualPath(VirtualPath),
    PathBuf(AbsPathBuf),
}

/// A file identity: a real path or a virtual one. Identities of different
/// kinds are never equal and never prefixes of one another.
#[derive(Debug, Clone, Ord, PartialOrd, Eq, PartialEq, Hash)]
pub struct VirtualFsPath(pub VirtualFsPathRepr);

/// The text is an absolute path.
pub open spec fn is_absolute(s: Seq<char>) -> bool {
    s.len() > 0 && s[0] == '/'
}

impl View for AbsPathBuf {
    type V = Seq<char>;

    closed spec fn view(&self) -> Seq<char> {
        self.path@
    }
}

impl View for VirtualPath {
    type V = Seq<char>;

    open spec fn view(&self) -> Seq<char> {
        self.0@
    }
}

impl View for VirtualFsPath {
    type V = PathView;

    open spec fn view(&self) -> PathView {
        match self.0 {
            VirtualFsPathRepr::PathBuf(p) => (true, p@),
            VirtualFsPathRepr::VirtualPath(v) => (false, v@),
        }
    }
}

impl Clone for AbsPathBuf {
    fn clone(&self) -> AbsPathBuf {
        proof {
            use_type_invariant(self);
        }
        AbsPathBuf { path: self.path.clone() }
    }
}

impl AbsPathBuf {
    /// The path is absolute.
    #[verifier::type_invariant]
    spec fn inv(self) -> bool {
        is_absolute(self.path@)
    }

    /// The text of an `AbsPathBuf` is absolute.
    pub fn check_absolute(&self) -> (r: &str)
        ensures
            r@ == self@,
            is_absolute(self@),
    {
        proof {
            use_type_invariant(self);
        }
        self.path.as_str()
    }

    /// Wraps an absolute path; a relative one is refused.
    pub fn try_from(path: &str) -> (r: Result<AbsPathBuf, String>)
        ensures
            r is Ok <==> is_absolute(path@),
            r matches Ok(p) ==> p@ == path@,
            r matches Err(e) ==> e@ == path@,
    {
        let chars = chars_of(path);
        if chars.len() > 0 && chars[0] == '/' {
            Ok(AbsPathBuf { path: path.to_owned() })
        } else {
            Err(path.to_owned())
        }
    }

    /// The path's text.
    pub fn as_str(&self) -> (r: &str)
        ensures
            r@ == self@,
    {
        self.path.as_str()
    }
}

/// The text of an optional string.
pub open spec fn opt_text(s: Option<String>) -> Option<Seq<char>> {
    match s {
        Some(t) => Some(t@),
        None => None,
    }
}

/// The stem and extension of a path, as text.
pub open spec fn name_ext_view(r: Option<(String, Option<String>)>) -> Option<(Seq<char>, Option<Seq<char>>)> {
    match r {
        Some((stem, ext)) => Some((stem@, opt_text(ext))),
        None => None,
    }
}

/// Builds the stem and extension strings.
fn name_ext_strings(v: Option<(Vec<char>, Option<Vec<char>>)>) -> (r: Option<(String, Option<String>)>)
    ensures
        name_ext_view(r) == match v {
            Some((stem, ext)) => Some(
                (
                    stem@,
                    match ext {
                        Some(e) => Some(e@),
                        None => None,
                    },
                ),
            ),
            None => None,
        },
{
    match v {
        Some((stem, ext)) => {
            let ext_text = match ext {
                Some(e) => Some(string_of(&e)),
                None => None,
            };
            Some((string_of(&stem), ext_text))
        },
        None => None,
    }
}

impl VirtualPath {
    /// `other` is a prefix of this path, as text.
    pub fn starts_with(&self, other: &VirtualPath) -> (r: bool)
        ensures
            r == has_prefix(self@, other@),
    {
        has_prefix_text(&chars_of(self.0.as_str()), &chars_of(other.0.as_str()))
    }

    /// What follows the components of `base` in this path.
    pub fn strip_prefix(&self, base: &VirtualPath) -> (r: Option<String>)
        ensures
            opt_text(r) == strip_components(self@, base@),
    {
        match strip_components_text(&chars_of(self.0.as_str()), &chars_of(base.0.as_str())) {
            Some(rest) => Some(string_of(&rest)),
            None => None,
        }
    }

    /// Removes the last `/` and everything after it; without a `/`, returns
    /// `false` and changes nothing.
    pub fn pop(&mut self) -> (r: bool)
        ensures
            match parent_of(old(self)@, false) {
                None => !r && final(self)@ == old(self)@,
                Some(p) => r && final(self)@ == p,
            },
    {
        match parent_text(&chars_of(self.0.as_str()), false) {
            Some(up) => {
                self.0 = string_of(&up);
                true
            },
            None => false,
        }
    }

    /// Appends the relative `path`, resolving its leading `../` by popping
    /// (`None` when that runs out of components) and dropping its leading
    /// `./`.
    pub fn join(&self, path: &str) -> (r: Option<VirtualPath>)
        ensures
            match join_text(self@, path@, false) {
                None => r is None,
                Some(j) => r matches Some(p) && p@ == j,
            },
    {
        match join_path_text(&chars_of(self.0.as_str()), &chars_of(path), false) {
            Some(joined) => Some(VirtualPath(string_of(&joined))),
            None => None,
        }
    }

    /// The base name's stem and extension.
    pub fn name_and_extension(&self) -> (r: Option<(String, Option<String>)>)
        ensures
            name_ext_view(r) == name_and_extension_of(self@),
    {
        name_ext_strings(name_and_extension_text(&chars_of(self.0.as_str())))
    }
}

impl VirtualFsPath {
    /// The text of the identity.
    pub fn text(&self) -> (r: &str)
        ensures
            r@ == self@.1,
    {
        match &self.0 {
            VirtualFsPathRepr::PathBuf(p) => p.path.as_str(),
            VirtualFsPathRepr::VirtualPath(v) => v.0.as_str(),
        }
    }

    /// Whether the identity is a real path.
    pub fn is_real(&self) -> (r: bool)
        ensures
            r == self@.0,
    {
        matches!(&self.0, VirtualFsPathRepr::PathBuf(_))
    }

    /// The text of a real identity is absolute.
    fn text_checked(&self) -> (r: &str)
        ensures
            r@ == self@.1,
            self@.0 ==> is_absolute(self@.1),
    {
        match &self.0 {
            VirtualFsPathRepr::PathBuf(p) => p.check_absolute(),
            VirtualFsPathRepr::VirtualPath(v) => v.0.as_str(),
        }
    }

    /// An identity of the same kind with the given text.
    fn with_text(is_real: bool, text: String) -> (r: VirtualFsPath)
        requires
            is_real ==> is_absolute(text@),
        ensures
            r@ == (is_real, text@),
    {
        if is_real {
            VirtualFsPath(VirtualFsPathRepr::PathBuf(AbsPathBuf { path: text }))
        } else {
            VirtualFsPath(VirtualFsPathRepr::VirtualPath(VirtualPath(text)))
        }
    }

    /// Appends the relative `path`, resolving its leading `../` (`None` when
    /// that would go above the top) and dropping its leading `./`; a real
    /// result is then normalised.
    pub fn join(&self, path: &str) -> (r: Option<VirtualFsPath>)
        ensures
            match join_text(self@.1, path@, self@.0) {
                None => r is None,
                Some(j) => r matches Some(p) && p@ == (self@.0, if self@.0 {
                    normalize_text(j)
                } else {
                    j
                }),
            },
    {
        let is_real = self.is_real();
        let base = self.text_checked();
        match join_path_text(&chars_of(base), &chars_of(path), is_real) {
            Some(joined) => {
                if is_real {
                    let text = string_of(&joined);
                    Some(Self::normalized(text.as_str()))
                } else {
                    Some(Self::with_text(false, string_of(&joined)))
                }
            },
            None => None,
        }
    }

    /// Moves to the parent; without one, returns `false` and changes
    /// nothing.
    pub fn pop(&mut self) -> (r: bool)
        ensures
            match parent_of(old(self)@.1, old(self)@.0) {
                None => !r && final(self)@ == old(self)@,
                Some(p) => r && final(self)@ == (old(self)@.0, p),
            },
    {
        let is_real = self.is_real();
        let text = self.text_checked();
        match parent_text(&chars_of(text), is_real) {
            Some(up) => {
                proof {
                    if is_real {
                        lemma_parent_keeps_absolute(old(self)@.1);
                    }
                }
                *self = Self::with_text(is_real, string_of(&up));
                true
            },
            None => false,
        }
    }

    /// `other` is a prefix of this identity: whole components for real
    /// paths, text for virtual ones. Identities of different kinds are
    /// unrelated.
    pub fn starts_with(&self, other: &Self) -> (r: bool)
        ensures
            r == (self@.0 == other@.0 && if self@.0 {
                component_prefix(self@.1, other@.1)
            } else {
                has_prefix(self@.1, other@.1)
            }),
    {
        let is_real = self.is_real();
        if is_real != other.is_real() {
            return false;
        }
        let s = chars_of(self.text());
        let p = chars_of(other.text());
        if is_real {
            component_prefix_text(&s, &p)
        } else {
            has_prefix_text(&s, &p)
        }
    }

    /// What follows the components of `base` in this identity; `None` when
    /// `base` is of the other kind or not a prefix.
    pub fn strip_prefix(&self, base: &Self) -> (r: Option<String>)
        ensures
            opt_text(r) == (if self@.0 == base@.0 {
                strip_components(self@.1, base@.1)
            } else {
                None
            }),
    {
        if self.is_real() != base.is_real() {
            return None;
        }
        match strip_components_text(&chars_of(self.text()), &chars_of(base.text())) {
            Some(rest) => Some(string_of(&rest)),
            None => None,
        }
    }

    /// The parent identity, if there is one.
    pub fn parent(&self) -> (r: Option<VirtualFsPath>)
        ensures
            match parent_of(self@.1, self@.0) {
                None => r is None,
                Some(p) => r matches Some(q) && q@ == (self@.0, p),
            },
    {
        let mut parent = self.duplicate();
        if parent.pop() {
            Some(parent)
        } else {
            None
        }
    }

    /// The base name's stem and extension.
    pub fn name_and_extension(&self) -> (r: Option<(String, Option<String>)>)
        ensures
            name_ext_view(r) == name_and_extension_of(self@.1),
    {
        name_ext_strings(name_and_extension_text(&chars_of(self.text())))
    }

    /// A virtual identity with the given text.
    pub fn new_virtual_path(path: String) -> (r: VirtualFsPath)
        ensures
            r@ == (false, path@),
    {
        VirtualFsPath(VirtualFsPathRepr::VirtualPath(VirtualPath(path)))
    }

    /// The real identity of an absolute path, normalised.
    pub fn new_real_path(path: String) -> (r: VirtualFsPath)
        requires
            is_absolute(path@),
        ensures
            r@ == (true, normalize_text(path@)),
    {
        Self::normalized(path.as_str())
    }

    /// The real identity of the normalised form of `path`.
    fn normalized(path: &str) -> (r: VirtualFsPath)
        ensures
            r@ == (true, normalize_text(path@)),
    {
        let normalized = normalize_path_text(&chars_of(path));
        proof {
            lemma_render_starts_at_root(resolve_pieces(split_slash(path@)));
        }
        VirtualFsPath(VirtualFsPathRepr::PathBuf(AbsPathBuf { path: string_of(&normalized) }))
    }

    /// A copy of the identity.
    pub fn duplicate(&self) -> (r: VirtualFsPath)
        ensures
            r@ == self@,
    {
        match &self.0 {
            VirtualFsPathRepr::PathBuf(p) => {
                proof {
                    use_type_invariant(p);
                }
                VirtualFsPath(VirtualFsPathRepr::PathBuf(AbsPathBuf { path: p.path.clone() }))
            },
            VirtualFsPathRepr::VirtualPath(v) => VirtualFsPath(
                VirtualFsPathRepr::VirtualPath(VirtualPath(v.0.clone())),
            ),
        }
    }

    /// The real identity of an absolute path, normalised.
    pub fn from_abs_path(path: AbsPathBuf) -> (r: VirtualFsPath)
        ensures
            r@ == (true, normalize_text(path@)),
    {
        Self::normalized(path.as_str())
    }

    /// The filesystem path of a real identity.
    pub fn as_path(&self) -> (r: Option<&AbsPathBuf>)
        ensures
            self@.0 <==> r is Some,
            r matches Some(p) ==> p@ == self@.1,
    {
        match &self.0 {
            VirtualFsPathRepr::PathBuf(path) => Some(path),
            VirtualFsPathRepr::VirtualPath(_) => None,
        }
    }
}

/// The parent of an absolute path is absolute.
pub proof fn lemma_parent_keeps_absolute(s: Seq<char>)
    requires
        is_absolute(s),
    ensures
        real_parent(s) matches Some(p) ==> is_absolute(p),
{
    lemma_last_index_of(s, '/');
}

} // verus!
