//! Shared-library path adjustment and interpreter lookups, over POSIX-style
//! paths modelled as byte strings: the file name is the component after the
//! last separator.

use vstd::prelude::*;

use vstd::string::StringExecFns;

verus! {

/// Why a shared-library path was rejected.
#[derive(Clone, Copy, PartialEq, Eq, Structural, Debug)]
pub enum SharedLibraryPathError {
    /// The path has no file name: it is empty or ends in a separator.
    NoFileName,
    /// The file name starts with `lib`; the prefix is added automatically.
    HasLibPrefix,
    /// The file name has an extension; it is added automatically.
    HasExtension,
}

/// Index where the file name starts: one past the last separator, or zero
/// when the path has none.
pub open spec fn file_name_start(path: Seq<u8>) -> int
    decreases path.len(),
{
    if path.len() == 0 {
        0
    } else if path[path.len() - 1] == 47u8 {
        path.len() as int
    } else {
        file_name_start(path.drop_last())
    }
}

/// The file name of the path: everything after the last separator.
pub open spec fn spec_file_name(path: Seq<u8>) -> Seq<u8> {
    path.skip(file_name_start(path))
}

/// Does the file name start with the bytes `lib`?
pub open spec fn has_lib_prefix(name: Seq<u8>) -> bool {
    name.len() >= 3 && name[0] == 108u8 && name[1] == 105u8 && name[2] == 98u8
}

/// Does the file name carry an extension? A dot in first position marks a
/// hidden file, not an extension.
pub open spec fn has_extension(name: Seq<u8>) -> bool {
    exists|i: int| 1 <= i < name.len() && name[i] == 46u8
}

/// The adjusted path: the platform prefix is put before the file name and
/// the platform suffix after it.
pub open spec fn adjusted_path(path: Seq<u8>, prefix: Seq<u8>, suffix: Seq<u8>) -> Seq<u8> {
    path.take(file_name_start(path)) + prefix + path.skip(file_name_start(path)) + suffix
}

/// Finds where the file name starts.
fn find_file_name_start(path: &Vec<u8>) -> (r: usize)
    ensures
        r == file_name_start(path@),
        r <= path@.len(),
{
    let mut i = path.len();
    proof {
        assert(path@.take(path@.len() as int) =~= path@);
    }
    while i > 0
        invariant
            0 <= i <= path@.len(),
            file_name_start(path@) == file_name_start(path@.take(i as int)),
        decreases i,
    {
        if path[i - 1] == 47u8 {
            proof {
                assert(path@.take(i as int).len() == i);
                assert(path@.take(i as int)[i - 1] == 47u8);
            }
            return i;
        }
        proof {
            assert(path@.take(i as int)[i - 1] != 47u8);
            assert(path@.take(i as int).drop_last() =~= path@.take(i as int - 1));
        }
        i -= 1;
    }
    proof {
        assert(path@.take(0).len() == 0);
    }
    0
}

/// Appends `src[from..to]` to `out`.
fn push_range(out: &mut Vec<u8>, src: &Vec<u8>, from: usize, to: usize)
    requires
        from <= to <= src@.len(),
    ensures
        final(out)@ == old(out)@ + src@.subrange(from as int, to as int),
{
    let mut i = from;
    while i < to
        invariant
            from <= i <= to <= src@.len(),
            out@ == old(out)@ + src@.subrange(from as int, i as int),
        decreases to - i,
    {
        out.push(src[i]);
        proof {
            assert(src@.subrange(from as int, i + 1) =~= src@.subrange(from as int, i as int).push(
                src@[i as int],
            ));
        }
        i += 1;
    }
}

/// Builds the platform file name of a shared library: the path's file name
/// must not be empty, must not already start with `lib`, and must carry no
/// extension; prefix and suffix are then added around it.
///
/// `dll_prefix` and `dll_suffix` are the platform's shared-library
/// decorations, e.g. `lib` and `.so`.
pub fn adjust_shared_library_path(path: &Vec<u8>, dll_prefix: &Vec<u8>, dll_suffix: &Vec<u8>) -> (r:
    Result<Vec<u8>, SharedLibraryPathError>)
    ensures
        match r {
            Ok(out) => {
                &&& spec_file_name(path@).len() > 0
                &&& !has_lib_prefix(spec_file_name(path@))
                &&& !has_extension(spec_file_name(path@))
                &&& out@ == adjusted_path(path@, dll_prefix@, dll_suffix@)
            },
            Err(SharedLibraryPathError::NoFileName) => spec_file_name(path@).len() == 0,
            Err(SharedLibraryPathError::HasLibPrefix) => has_lib_prefix(spec_file_name(path@)),
            Err(SharedLibraryPathError::HasExtension) => {
                &&& !has_lib_prefix(spec_file_name(path@))
                &&& has_extension(spec_file_name(path@))
            },
        },
{
    let n = path.len();
    let start = find_file_name_start(path);
    proof {
        assert(forall|q: int|
            0 <= q < spec_file_name(path@).len() ==> #[trigger] spec_file_name(path@)[q] == path@[q
                + file_name_start(path@)]);
    }
    if start == n {
        return Err(SharedLibraryPathError::NoFileName);
    }
    if n - start >= 3 && path[start] == 108u8 && path[start + 1] == 105u8 && path[start + 2]
        == 98u8 {
        return Err(SharedLibraryPathError::HasLibPrefix);
    }
    proof {
        let name = spec_file_name(path@);
        assert(name.len() == path@.len() - start);
        if has_lib_prefix(name) {
            assert(name[0] == path@[start as int]);
            assert(name[1] == path@[start as int + 1]);
            assert(name[2] == path@[start as int + 2]);
            assert(false);
        }
    }
    let mut i = start + 1;
    while i < n
        invariant
            start + 1 <= i <= n,
            n == path@.len(),
            start == file_name_start(path@),
            !has_lib_prefix(spec_file_name(path@)),
            forall|q: int| start < q < i ==> path@[q] != 46u8,
        decreases n - i,
    {
        if path[i] == 46u8 {
            proof {
                let name = spec_file_name(path@);
                assert(name[i - start] == path@[i as int]);
                assert(1 <= i - start < name.len());
                assert(has_extension(name));
            }
            return Err(SharedLibraryPathError::HasExtension);
        }
        i += 1;
    }
    proof {
        assert forall|q: int| 1 <= q < spec_file_name(path@).len() implies #[trigger] spec_file_name(
            path@,
        )[q] != 46u8 by {
            assert(spec_file_name(path@)[q] == path@[q + start]);
        }
    }
    let mut out: Vec<u8> = Vec::new();
    push_range(&mut out, path, 0, start);
    push_range(&mut out, dll_prefix, 0, dll_prefix.len());
    push_range(&mut out, path, start, n);
    push_range(&mut out, dll_suffix, 0, dll_suffix.len());
    proof {
        assert(path@.subrange(0, start as int) =~= path@.take(start as int));
        assert(dll_prefix@.subrange(0, dll_prefix@.len() as int) =~= dll_prefix@);
        assert(path@.subrange(start as int, n as int) =~= path@.skip(start as int));
        assert(dll_suffix@.subrange(0, dll_suffix@.len() as int) =~= dll_suffix@);
        assert(out@ =~= adjusted_path(path@, dll_prefix@, dll_suffix@));
    }
    Ok(out)
}

/// The interpreter path this build hands out: lookup on the search path is
/// not performed here.
pub fn get_python_path() -> (r: Result<String, SharedLibraryPathError>)
    ensures
        r matches Ok(p) && p@ == "no python"@,
{
    Ok(String::from_str("no python"))
}

/// The package-installer path this build hands out: lookup on the search
/// path is not performed here.
pub fn get_pip_path() -> (r: Result<String, SharedLibraryPathError>)
    ensures
        r matches Ok(p) && p@ == "no pip"@,
{
    Ok(String::from_str("no pip"))
}

} // verus!
