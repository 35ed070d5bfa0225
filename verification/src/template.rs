//! Templates: a manifest that serves as the blueprint for new services. A
//! template is known by the directory that holds its manifest file, so its
//! name and directory are carved out of the manifest file's path.

use vstd::prelude::*;

use crate::manifest::ManifestContent;

verus! {

/// The index of the last `/` strictly before `end` in `s`, when there is
/// one.
pub open spec fn spec_last_slash(s: Seq<char>, end: int) -> Option<int>
    decreases end,
{
    if end <= 0 {
        Option::None
    } else if s[end - 1] == '/' {
        Option::Some(end - 1)
    } else {
        spec_last_slash(s, end - 1)
    }
}

/// The directory part of a path: everything before the last `/`.
pub open spec fn spec_parent_dir(s: Seq<char>) -> Option<Seq<char>> {
    match spec_last_slash(s, s.len() as int) {
        Option::None => Option::None,
        Option::Some(j) => Option::Some(s.subrange(0, j)),
    }
}

/// The name of the directory that holds the file: the path component just
/// before the final one.
pub open spec fn spec_parent_name(s: Seq<char>) -> Option<Seq<char>> {
    match spec_last_slash(s, s.len() as int) {
        Option::None => Option::None,
        Option::Some(j) => match spec_last_slash(s, j) {
            Option::None => Option::Some(s.subrange(0, j)),
            Option::Some(i) => Option::Some(s.subrange(i + 1, j)),
        },
    }
}

/// The last `/` strictly before `end`, scanning backwards.
fn last_slash_before(s: &str, end: usize) -> (r: Option<usize>)
    requires
        end <= s@.len(),
    ensures
        (match r {
            Option::Some(i) => i < end && spec_last_slash(s@, end as int) == Option::Some(
                i as int,
            ),
            Option::None => spec_last_slash(s@, end as int) is None,
        }),
{
    let mut j = end;
    while j > 0
        invariant
            j <= end <= s@.len(),
            spec_last_slash(s@, end as int) == spec_last_slash(s@, j as int),
        decreases j,
    {
        j = j - 1;
        if s.get_char(j) == '/' {
            return Option::Some(j);
        }
    }
    Option::None
}

/// One template: its name, the directory it lives in, and its manifest.
#[derive(Debug, Clone)]
pub struct TemplateInfomation {
    pub name: String,
    pub path: String,
    pub template: ManifestContent,
}

impl TemplateInfomation {
    /// Describe the template whose manifest file lies at `manifest_path`:
    /// the file's directory becomes the template's path and that directory's
    /// own name the template's name. A path without any `/` names no
    /// directory and describes no template.
    pub fn new(manifest_path: &str, template: ManifestContent) -> (r: Option<TemplateInfomation>)
        ensures
            r is Some <==> spec_last_slash(manifest_path@, manifest_path@.len() as int) is Some,
            (r matches Some(t) ==> Option::Some(t.path@) == spec_parent_dir(manifest_path@)
                && Option::Some(t.name@) == spec_parent_name(manifest_path@) && t.template
                == template),
    {
        let n = manifest_path.unicode_len();
        let j = match last_slash_before(manifest_path, n) {
            Option::Some(j) => j,
            Option::None => {
                return Option::None;
            },
        };
        let start = match last_slash_before(manifest_path, j) {
            Option::Some(i) => i + 1,
            Option::None => 0,
        };
        let dir = String::from_str(manifest_path.substring_char(0, j));
        let name = String::from_str(manifest_path.substring_char(start, j));
        Option::Some(TemplateInfomation { name, path: dir, template })
    }
}

} // verus!
