//! Window-mode support: descriptors of candidate windows, searching them
//! by position or by an attribute regex, and the capability interface a
//! compositor integration implements to supply them.
//!
//! The regular-expression matching itself is done by the `regex` crate
//! behind trusted wrappers; everything around it (which window is picked,
//! and in what order candidates are tried) is verified.

use vstd::prelude::*;
use vstd::string::StrSliceExecFns;

use crate::rect::Rect;
use crate::traits::Contains;

verus! {

/// A candidate window: its title and class as first reported and as
/// currently reported, and its rectangle in global coordinates.
#[derive(Debug, Clone)]
pub struct WindowDescriptor {
    pub initial_title: String,
    pub title: String,
    pub initial_class: String,
    pub class: String,
    pub rect: Rect,
}

/// Which window attribute a search parameter matches against.
#[derive(Debug, Clone, Copy, PartialEq, Eq, Structural)]
pub enum WindowSearchAttribute {
    InitialTitle,
    Title,
    InitialClass,
    Class,
}

/// The attribute of `w` a search with `attr` reads.
pub open spec fn attr_value(w: WindowDescriptor, attr: WindowSearchAttribute) -> Seq<char> {
    match attr {
        WindowSearchAttribute::InitialTitle => w.initial_title@,
        WindowSearchAttribute::Title => w.title@,
        WindowSearchAttribute::InitialClass => w.initial_class@,
        WindowSearchAttribute::Class => w.class@,
    }
}

/// The pattern is a regular expression the `regex` crate accepts.
pub uninterp spec fn regex_valid(pattern: Seq<char>) -> bool;

/// The (valid) pattern matches the text; a function of the two strings
/// alone.
pub uninterp spec fn regex_match(pattern: Seq<char>, text: Seq<char>) -> bool;

/// Relies on `regex::Regex::new`: whether compilation succeeds depends on
/// the pattern string alone.
#[verifier::external_body]
fn regex_pattern_valid(pattern: &str) -> (r: bool)
    ensures
        r == regex_valid(pattern@),
{
    regex::Regex::new(pattern).is_ok()
}

/// Relies on `regex::Regex::new` and `regex::Regex::is_match`: compiling
/// succeeds iff the pattern is valid, and whether a compiled pattern
/// matches a text depends on the pattern and text strings alone.
#[verifier::external_body]
fn regex_match_text(pattern: &str, text: &str) -> (r: Option<bool>)
    ensures
        r is Some <==> regex_valid(pattern@),
        r is Some ==> r->0 == regex_match(pattern@, text@),
{
    regex::Regex::new(pattern).ok().map(|re| re.is_match(text))
}

/// A window search: match `value` (a regular expression) against one
/// attribute of each candidate window.
#[derive(Debug, Clone)]
pub struct WindowSearchParam {
    pub attribute: WindowSearchAttribute,
    pub value: String,
}

/// The search parameter picks window `w`: its pattern is valid and
/// matches the searched attribute of `w`.
pub open spec fn param_matches(param: WindowSearchParam, w: WindowDescriptor) -> bool {
    regex_valid(param.value@) && regex_match(param.value@, attr_value(w, param.attribute))
}

/// The attribute named by `s`, in the snake-case spelling the search
/// syntax uses.
pub open spec fn attr_of(s: Seq<char>) -> Option<WindowSearchAttribute> {
    if s == "initial_title"@ {
        Some(WindowSearchAttribute::InitialTitle)
    } else if s == "title"@ {
        Some(WindowSearchAttribute::Title)
    } else if s == "initial_class"@ {
        Some(WindowSearchAttribute::InitialClass)
    } else if s == "class"@ {
        Some(WindowSearchAttribute::Class)
    } else {
        None
    }
}

/// String equality on character views.
fn str_eq(a: &str, b: &str) -> (r: bool)
    ensures
        r == (a@ == b@),
{
    let la = a.unicode_len();
    let lb = b.unicode_len();
    if la != lb {
        proof {
            assert(a@ != b@) by {
                assert(a@.len() != b@.len());
            }
        }
        return false;
    }
    let mut i: usize = 0;
    while i < la
        invariant
            la == a@.len(),
            la == b@.len(),
            0 <= i <= la,
            forall|j: int| 0 <= j < i ==> a@[j] == b@[j],
        decreases la - i,
    {
        if a.get_char(i) != b.get_char(i) {
            return false;
        }
        i += 1;
    }
    proof {
        assert(a@ =~= b@);
    }
    true
}

impl WindowSearchParam {
    /// Parses `"attribute=value"`: the attribute up to the first `=`, the
    /// rest a regular expression. Succeeds exactly when such a split
    /// exists with a known attribute name and a valid pattern.
    pub fn parse(s: &str) -> (r: Result<WindowSearchParam, String>)
        ensures
            match r {
                Ok(param) => exists|i: int|
                    {
                        &&& 0 <= i < s@.len()
                        &&& s@[i] == '='
                        &&& (forall|j: int| 0 <= j < i ==> s@[j] != '=')
                        &&& attr_of(s@.subrange(0, i)) == Some(param.attribute)
                        &&& param.value@ == s@.subrange(i + 1, s@.len() as int)
                        &&& regex_valid(param.value@)
                    },
                Err(_) => forall|i: int|
                    0 <= i < s@.len() && s@[i] == '=' && (forall|j: int|
                        0 <= j < i ==> s@[j] != '=') ==> !{
                        &&& attr_of(s@.subrange(0, i)) is Some
                        &&& regex_valid(s@.subrange(i + 1, s@.len() as int))
                    },
            },
    {
        let len = s.unicode_len();
        let mut i: usize = 0;
        while i < len
            invariant
                len == s@.len(),
                0 <= i <= len,
                forall|j: int| 0 <= j < i ==> s@[j] != '=',
            decreases len - i,
        {
            if s.get_char(i) == '=' {
                let attribute_str = s.substring_char(0, i);
                let value_str = s.substring_char(i + 1, len);
                let attribute = if str_eq(attribute_str, "initial_title") {
                    WindowSearchAttribute::InitialTitle
                } else if str_eq(attribute_str, "title") {
                    WindowSearchAttribute::Title
                } else if str_eq(attribute_str, "initial_class") {
                    WindowSearchAttribute::InitialClass
                } else if str_eq(attribute_str, "class") {
                    WindowSearchAttribute::Class
                } else {
                    return Err(
                        "Invalid search attribute \"".to_owned().concat(attribute_str).concat(
                            "\"",
                        ),
                    );
                };
                if regex_pattern_valid(value_str) {
                    return Ok(
                        WindowSearchParam { attribute, value: value_str.to_owned() },
                    );
                } else {
                    return Err(
                        "Invalid search value \"".to_owned().concat(value_str).concat("\""),
                    );
                }
            }
            i += 1;
        }
        Err(
            "Invalid search parameter. Search parameters should be in the form of \"attribute=value\". Valid attributes are \"initial_title\", \"title\", \"initial_class\", and \"class\".".to_owned(),
        )
    }
}

impl core::str::FromStr for WindowSearchParam {
    type Err = String;

    fn from_str(s: &str) -> Result<WindowSearchParam, String> {
        WindowSearchParam::parse(s)
    }
}

/// An explicit deep copy of a window descriptor, equal to the original.
pub fn clone_window(w: &WindowDescriptor) -> (r: WindowDescriptor)
    ensures
        r == *w,
{
    WindowDescriptor {
        initial_title: w.initial_title.clone(),
        title: w.title.clone(),
        initial_class: w.initial_class.clone(),
        class: w.class.clone(),
        rect: w.rect,
    }
}

/// Searching a list of candidate windows, front to back: the list is
/// ordered topmost first, so the first match is the visible pick.
pub trait FindWindowExt {
    /// When `find_by_position` is free of overflow.
    spec fn find_by_position_req(&self, position: &(i32, i32)) -> bool;

    /// What `find_by_position` returns.
    spec fn find_by_position_post(&self, position: &(i32, i32), r: Option<&WindowDescriptor>) -> bool;

    /// What `find_by_search_param` returns.
    spec fn find_by_search_param_post(
        &self,
        param: WindowSearchParam,
        r: Option<&WindowDescriptor>,
    ) -> bool;

    fn find_by_position(&self, position: &(i32, i32)) -> (r: Option<&WindowDescriptor>)
        requires
            self.find_by_position_req(position),
        ensures
            self.find_by_position_post(position, r),
    ;

    fn find_by_search_param(&self, param: WindowSearchParam) -> (r: Option<&WindowDescriptor>)
        ensures
            self.find_by_search_param_post(param, r),
    ;
}

impl FindWindowExt for Vec<WindowDescriptor> {
    open spec fn find_by_position_req(&self, position: &(i32, i32)) -> bool {
        forall|i: int| 0 <= i < self@.len() ==> (#[trigger] self@[i]).rect.loose()
    }

    /// The first window (topmost first) whose rectangle contains the
    /// position, boundary inclusive; `None` when no window does.
    open spec fn find_by_position_post(
        &self,
        position: &(i32, i32),
        r: Option<&WindowDescriptor>,
    ) -> bool {
        match r {
            Some(w) => exists|i: int|
                {
                    &&& 0 <= i < self@.len()
                    &&& *w == self@[i]
                    &&& self@[i].rect.spec_contains(position)
                    &&& forall|j: int| 0 <= j < i ==> !(#[trigger] self@[j]).rect.spec_contains(
                        position,
                    )
                },
            None => forall|i: int|
                0 <= i < self@.len() ==> !(#[trigger] self@[i]).rect.spec_contains(position),
        }
    }

    /// The first window (topmost first) whose searched attribute the
    /// pattern matches; `None` when the pattern is invalid or matches no
    /// window.
    open spec fn find_by_search_param_post(
        &self,
        param: WindowSearchParam,
        r: Option<&WindowDescriptor>,
    ) -> bool {
        match r {
            Some(w) => exists|i: int|
                {
                    &&& 0 <= i < self@.len()
                    &&& *w == self@[i]
                    &&& param_matches(param, self@[i])
                    &&& forall|j: int| 0 <= j < i ==> !param_matches(param, #[trigger] self@[j])
                },
            None => forall|i: int| 0 <= i < self@.len() ==> !param_matches(param, #[trigger] self@[i]),
        }
    }

    fn find_by_position(&self, position: &(i32, i32)) -> (r: Option<&WindowDescriptor>) {
        let mut i: usize = 0;
        while i < self.len()
            invariant
                0 <= i <= self@.len(),
                forall|j: int| 0 <= j < i ==> !(#[trigger] self@[j]).rect.spec_contains(position),
                self.find_by_position_req(position),
            decreases self@.len() - i,
        {
            if self[i].rect.contains(position) {
                return Some(&self[i]);
            }
            i += 1;
        }
        None
    }

    fn find_by_search_param(&self, param: WindowSearchParam) -> (r: Option<&WindowDescriptor>) {
        let mut i: usize = 0;
        while i < self.len()
            invariant
                0 <= i <= self@.len(),
                forall|j: int| 0 <= j < i ==> !param_matches(param, #[trigger] self@[j]),
            decreases self@.len() - i,
        {
            let text = match param.attribute {
                WindowSearchAttribute::InitialTitle => &self[i].initial_title,
                WindowSearchAttribute::Title => &self[i].title,
                WindowSearchAttribute::InitialClass => &self[i].initial_class,
                WindowSearchAttribute::Class => &self[i].class,
            };
            let matched = match regex_match_text(param.value.as_str(), text.as_str()) {
                Some(m) => m,
                None => false,
            };
            if matched {
                return Some(&self[i]);
            }
            i += 1;
        }
        None
    }
}

/// The capability interface a compositor integration implements to hand
/// the engine its window list, its focused window and the pointer
/// position. Implementations live outside this crate, next to the
/// compositor connection they wrap.
pub trait CompositorBackend {
    fn get_all_windows(&self) -> Vec<WindowDescriptor>;

    fn get_focused(&self) -> Option<WindowDescriptor>;

    fn get_mouse_position(&self) -> (i32, i32);
}

/// Probing constructor for a compositor integration, tried in priority
/// order at startup.
pub trait InitializeBackend {
    fn try_new() -> Result<Box<dyn CompositorBackend>, CompositorNotAvailable>;
}

/// Why a compositor integration could not be initialized.
#[derive(Debug, Clone, Copy, PartialEq, Eq, Structural)]
pub enum CompositorNotAvailable {
    NotInstalled,
    NotRunning,
}

} // verus!
