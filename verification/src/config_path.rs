use vstd::prelude::*;
use vstd::string::StrSliceExecFns;

verus! {

/// The position of the last path separator in `path`, or -1 when there is
/// none.
pub open spec fn last_slash(path: Seq<char>) -> int
    decreases path.len(),
{
    if path.len() == 0 {
        -1
    } else if path[path.len() - 1] == '/' {
        path.len() - 1
    } else {
        last_slash(path.drop_last())
    }
}

/// The directory part of a file path: everything before the last
/// separator, the root for a file directly under it, and empty for a bare
/// file name.
pub open spec fn spec_parent(path: Seq<char>) -> Seq<char> {
    let i = last_slash(path);
    if i < 0 {
        Seq::empty()
    } else if i == 0 {
        path.take(1)
    } else {
        path.take(i)
    }
}

/// Where the configuration lives: the file itself and the directory that
/// must exist before the file can be written.
pub struct ConfigPath {
    dirPath: String,
    filePath: String,
}

impl ConfigPath {
    /// The directory part.
    pub closed spec fn spec_dir(self) -> Seq<char> {
        self.dirPath@
    }

    /// The file itself.
    pub closed spec fn spec_file(self) -> Seq<char> {
        self.filePath@
    }

    /// A config location for the given file path.  The path must name a
    /// file, not a directory, so it is non-empty and has no trailing
    /// separator; the caller checks the file system before constructing.
    pub fn new(filePath: &str) -> (r: ConfigPath)
        requires
            filePath@.len() > 0,
            filePath@[filePath@.len() - 1] != '/',
        ensures
            r.spec_file() == filePath@,
            r.spec_dir() == spec_parent(filePath@),
    {
        let len = filePath.unicode_len();
        let mut i: usize = len;
        proof {
            assert(filePath@.take(len as int) =~= filePath@);
        }
        while i > 0 && filePath.get_char(i - 1) != '/'
            invariant
                0 <= i <= len,
                len == filePath@.len(),
                last_slash(filePath@) == last_slash(filePath@.take(i as int)),
            decreases i,
        {
            proof {
                assert(filePath@.take(i as int).drop_last() =~= filePath@.take(i - 1));
            }
            i = i - 1;
        }
        proof {
            if i > 0 {
                assert(filePath@.take(i as int)[i - 1] == filePath@[i - 1]);
            }
        }
        let dirPath = if i == 0 {
            String::new()
        } else if i == 1 {
            filePath.substring_char(0, 1).to_owned()
        } else {
            filePath.substring_char(0, i - 1).to_owned()
        };
        proof {
            if i == 0 {
                assert(filePath@.take(0) =~= Seq::<char>::empty());
            }
            assert(dirPath@ =~= spec_parent(filePath@));
        }
        ConfigPath { dirPath, filePath: filePath.to_owned() }
    }

    /// The directory that must exist before the file is written.
    pub fn getDirPath(&self) -> (r: &str)
        ensures
            r@ == self.spec_dir(),
    {
        self.dirPath.as_str()
    }

    /// The configuration file itself.
    pub fn getFilePath(&self) -> (r: &str)
        ensures
            r@ == self.spec_file(),
    {
        self.filePath.as_str()
    }
}

} // verus!
