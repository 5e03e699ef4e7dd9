use vstd::prelude::*;
use crate::strutil::{ext_dot_at, split_extension};

verus! {

/// One test: its name and where its input lives.
pub struct Test {
    pub test_name: String,
    pub input_path: String,
}

/// The test a file of the input directory stands for: its stem, when
/// the file name's dot-extension is exactly `in_ext`; `None` otherwise,
/// for files without an extension, and for hidden files whose only dot
/// leads.  The directory walk happens at the caller's edge; this is
/// the rule it filters file names by.
pub fn test_name_for(file_name: &str, in_ext: &str) -> (r: Option<String>)
    ensures
        match r {
            Some(stem) => exists|p: int|
                #[trigger] ext_dot_at(file_name@, p) && p > 0 && file_name@[p - 1] != '/' && stem@
                    == file_name@.take(p) && in_ext@ == "."@ + file_name@.skip(p + 1),
            None => (forall|p: int|
                #[trigger] ext_dot_at(file_name@, p) ==> p == 0 || file_name@[p - 1] == '/') || (
            exists|p: int|
                #[trigger] ext_dot_at(file_name@, p) && p > 0 && file_name@[p - 1] != '/'
                    && in_ext@ != "."@ + file_name@.skip(p + 1)),
        },
{
    match split_extension(file_name) {
        Some((stem, ext)) => {
            let mut dotted = ".".to_owned();
            dotted.append(ext.as_str());
            let in_ext_owned: String = in_ext.to_owned();
            if dotted == in_ext_owned {
                Some(stem)
            } else {
                None
            }
        },
        None => None,
    }
}

} // verus!
