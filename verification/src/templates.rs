//! Reusable manuscript templates: a named set of files, each a relative
//! path with its content, kept under a location on disk. Deciding where
//! each file of a template lives is verified here; reading and writing the
//! files is the disk's business and stays outside.

use vstd::prelude::*;
use vstd::string::*;

verus! {

/// A template as it is sent for saving: its files and its name.
pub struct SaveTemplate {
    pub files: Vec<(String, String)>,
    pub name: String,
}

/// A template bound to the location that holds it.
pub struct Template {
    pub files: Vec<(String, String)>,
    pub name: String,
    pub location: String,
}

/// Where one file of the template named `name` under `location` lives.
pub fn template_file_path(location: &str, name: &str, rel: &str) -> (r: String)
    ensures
        r@ == location@ + ("/")@ + name@ + ("/")@ + rel@,
{
    let mut s = location.to_owned();
    s.append("/");
    s.append(name);
    s.append("/");
    s.append(rel);
    s
}

impl Template {
    /// Everything that saving this template writes: for each of its files,
    /// the full path under the template's own directory, with the file's
    /// content unchanged.
    pub fn save_plan(&self) -> (r: Vec<(String, String)>)
        ensures
            r@.len() == self.files@.len(),
            forall|i: int|
                0 <= i < r@.len() ==> r@[i].0@ == self.location@ + ("/")@ + self.name@ + ("/")@
                    + self.files@[i].0@ && r@[i].1@ == self.files@[i].1@,
    {
        let mut out: Vec<(String, String)> = Vec::new();
        let mut i: usize = 0;
        while i < self.files.len()
            invariant
                i <= self.files@.len(),
                out@.len() == i,
                forall|k: int|
                    0 <= k < i ==> out@[k].0@ == self.location@ + ("/")@ + self.name@ + ("/")@
                        + self.files@[k].0@ && out@[k].1@ == self.files@[k].1@,
            decreases self.files@.len() - i,
        {
            let target = template_file_path(
                self.location.as_str(),
                self.name.as_str(),
                self.files[i].0.as_str(),
            );
            out.push((target, self.files[i].1.clone()));
            i += 1;
        }
        out
    }
}

} // verus!
