//! Manifest entries and launcher configuration.
//!
//! A manifest entry names one remote resource: a file name, a relative
//! install path, an opaque version tag and a download URL. Entries arrive
//! encoded as four colon-separated fields, `name:path:tag:url`.

use vstd::prelude::*;

verus! {

use crate::errors::ErrorKind;
use crate::text::{contains_seq, count_char, split4, str_contains};

/// One trackable remote resource of the manifest.
#[derive(Debug)]
pub struct File {
    /// Display and file name of the resource.
    pub name: String,
    /// Directory under the install root that receives the file.
    pub path: String,
    /// Opaque version tag; staleness is decided by comparing it with the
    /// tag the server reports.
    pub etag: String,
    /// Download source.
    pub url: String,
}

impl File {
    /// Well-formedness: all four fields non-empty, and the install path can
    /// never escape the install root (it holds no `..`, a policy slightly
    /// stricter than rejecting only parent-directory segments).
    pub open spec fn wf(self) -> bool {
        &&& self.name@.len() > 0
        &&& self.path@.len() > 0
        &&& self.etag@.len() > 0
        &&& self.url@.len() > 0
        &&& !contains_seq(self.path@, ".."@)
    }

    /// Parses one `name:path:tag:url` manifest entry. Succeeds exactly on
    /// inputs with exactly four colon-delimited fields; the fields then
    /// reassemble to the input.
    pub fn parse(s: &str) -> (r: Result<File, ErrorKind>)
        ensures
            r is Ok <==> count_char(s@, ':') == 3,
            r matches Ok(f) ==> {
                &&& s@ == f.name@ + seq![':'] + f.path@ + seq![':'] + f.etag@ + seq![':'] + f.url@
                &&& count_char(f.name@, ':') == 0
                &&& count_char(f.path@, ':') == 0
                &&& count_char(f.etag@, ':') == 0
                &&& count_char(f.url@, ':') == 0
            },
            r matches Err(e) ==> e is MalformedManifestEntry,
    {
        match split4(s) {
            Some((name, path, etag, url)) => Ok(File { name, path, etag, url }),
            None => Err(ErrorKind::MalformedManifestEntry),
        }
    }

    /// Same field contents.
    pub open spec fn equiv(self, o: File) -> bool {
        &&& self.name@ == o.name@
        &&& self.path@ == o.path@
        &&& self.etag@ == o.etag@
        &&& self.url@ == o.url@
    }

    /// Runtime check of the well-formedness invariant.
    pub fn is_valid(&self) -> (r: bool)
        ensures
            r == self.wf(),
    {
        let no_escape = !str_contains(self.path.as_str(), "..");
        !self.name.as_str().is_empty() && !self.path.as_str().is_empty()
            && !self.etag.as_str().is_empty() && !self.url.as_str().is_empty() && no_escape
    }
}

impl Clone for File {
    /// A clone carries the same four fields.
    fn clone(&self) -> (res: Self)
        ensures
            res.equiv(*self),
    {
        File {
            name: self.name.clone(),
            path: self.path.clone(),
            etag: self.etag.clone(),
            url: self.url.clone(),
        }
    }
}

/// Everything one launcher run needs: the manifest, the install root, the
/// full-game download source, and the server connection string.
#[derive(Debug)]
pub struct Configuration {
    /// Manifest of tracked resources, in processing order.
    pub files: Vec<File>,
    /// Install root directory.
    pub path: String,
    /// URL of the full game archive.
    pub wow: String,
    /// Connection string written wholesale into the server-list file.
    pub realmlist: String,
}

impl Configuration {
    /// Every manifest entry is well-formed.
    pub open spec fn wf(self) -> bool {
        forall|i: int| 0 <= i < self.files@.len() ==> (#[trigger] self.files@[i]).wf()
    }

    /// Same manifest contents, root, archive source and connection string.
    pub open spec fn equiv(self, o: Configuration) -> bool {
        &&& self.files@.len() == o.files@.len()
        &&& forall|i: int|
            0 <= i < self.files@.len() ==> (#[trigger] self.files@[i]).equiv(o.files@[i])
        &&& self.path@ == o.path@
        &&& self.wow@ == o.wow@
        &&& self.realmlist@ == o.realmlist@
    }

    /// Runtime check that every manifest entry meets its invariant.
    pub fn is_valid(&self) -> (r: bool)
        ensures
            r == self.wf(),
    {
        let mut i: usize = 0;
        while i < self.files.len()
            invariant
                i <= self.files@.len(),
                forall|k: int| 0 <= k < i ==> (#[trigger] self.files@[k]).wf(),
            decreases self.files@.len() - i,
        {
            if !self.files[i].is_valid() {
                return false;
            }
            i = i + 1;
        }
        true
    }
}

impl Clone for Configuration {
    /// A clone carries the same contents, entry by entry.
    fn clone(&self) -> (res: Self)
        ensures
            res.equiv(*self),
            self.wf() ==> res.wf(),
    {
        let mut files: Vec<File> = Vec::new();
        let mut i: usize = 0;
        while i < self.files.len()
            invariant
                i <= self.files@.len(),
                files@.len() == i,
                forall|k: int| 0 <= k < i ==> (#[trigger] files@[k]).equiv(self.files@[k]),
            decreases self.files@.len() - i,
        {
            files.push(self.files[i].clone());
            i = i + 1;
        }
        let res = Configuration {
            files,
            path: self.path.clone(),
            wow: self.wow.clone(),
            realmlist: self.realmlist.clone(),
        };
        proof {
            if self.wf() {
                assert forall|k: int| 0 <= k < res.files@.len() implies (
                #[trigger] res.files@[k]).wf() by {
                    assert(self.files@[k].wf());
                }
            }
        }
        res
    }
}

/// Assembles a configuration from plain values: each element of `specs` is
/// one encoded manifest entry. Succeeds exactly when every entry has exactly
/// four colon-delimited fields; it fails on the first malformed entry, so a
/// malformed manifest is rejected before any network or filesystem work can
/// start.
pub fn parse(specs: &Vec<String>, path: String, wow: String, realmlist: String) -> (r: Result<
    Configuration,
    ErrorKind,
>)
    ensures
        r is Ok <==> (forall|i: int|
            0 <= i < specs@.len() ==> count_char(#[trigger] specs@[i]@, ':') == 3),
        r matches Ok(cfg) ==> {
            &&& cfg.files@.len() == specs@.len()
            &&& cfg.path@ == path@
            &&& cfg.wow@ == wow@
            &&& cfg.realmlist@ == realmlist@
            &&& forall|i: int|
                0 <= i < specs@.len() ==> {
                    let f = #[trigger] cfg.files@[i];
                    &&& specs@[i]@ == f.name@ + seq![':'] + f.path@ + seq![':'] + f.etag@
                        + seq![':'] + f.url@
                    &&& count_char(f.name@, ':') == 0
                    &&& count_char(f.path@, ':') == 0
                    &&& count_char(f.etag@, ':') == 0
                    &&& count_char(f.url@, ':') == 0
                }
        },
        r matches Err(e) ==> e is MalformedManifestEntry,
{
    let mut files: Vec<File> = Vec::new();
    let mut i: usize = 0;
    while i < specs.len()
        invariant
            i <= specs@.len(),
            files@.len() == i,
            forall|k: int| 0 <= k < i ==> count_char(#[trigger] specs@[k]@, ':') == 3,
            forall|k: int|
                0 <= k < i ==> {
                    let f = #[trigger] files@[k];
                    &&& specs@[k]@ == f.name@ + seq![':'] + f.path@ + seq![':'] + f.etag@
                        + seq![':'] + f.url@
                    &&& count_char(f.name@, ':') == 0
                    &&& count_char(f.path@, ':') == 0
                    &&& count_char(f.etag@, ':') == 0
                    &&& count_char(f.url@, ':') == 0
                },
        decreases specs@.len() - i,
    {
        let f = match File::parse(specs[i].as_str()) {
            Ok(f) => f,
            Err(e) => {
                return Err(e);
            },
        };
        files.push(f);
        i = i + 1;
    }
    Ok(Configuration { files, path, wow, realmlist })
}

} // verus!
