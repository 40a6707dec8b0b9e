//! Layout and content of the shims that forward to the `run` command.
use vstd::prelude::*;
use crate::configs::index::Package as PackageIndex;
use crate::text::{join_path, path_join, push_str, strs};

verus! {

/// Invocation key of a shim: the package name, or `package::binary`.
pub open spec fn invocation_key(name: Seq<char>, binary: Option<Seq<char>>) -> Seq<char> {
    match binary {
        Some(b) => name + "::"@ + b,
        None => name,
    }
}

/// A shim to place: its file name and the invocation key it forwards.
#[derive(Debug, Clone)]
pub struct Shim {
    pub name: String,
    pub command: String,
}

/// The (file name, invocation key) pair of a shim.
pub open spec fn shim_view(s: Shim) -> (Seq<char>, Seq<char>) {
    (s.name@, s.command@)
}

/// The shims of package `name`: one for the bare name unless the descriptor
/// asks for binaries only, then one for every declared binary, named after
/// it.
pub open spec fn shim_plan(name: Seq<char>, index: PackageIndex) -> Seq<(Seq<char>, Seq<char>)> {
    (if index.only_shim_binaries {
        Seq::empty()
    } else {
        seq![(name, name)]
    }) + index.binary_list().map_values(
        |b: crate::configs::index::Binary| (b.name@, invocation_key(name, Some(b.name@))),
    )
}

/// The file names of the shims of package `name`.
pub open spec fn shim_names(name: Seq<char>, index: PackageIndex) -> Seq<Seq<char>> {
    shim_plan(name, index).map_values(|p: (Seq<char>, Seq<char>)| p.0)
}

/// Builds the invocation key `name` or `name::binary`.
pub fn shim_command(name: &str, binary: Option<&str>) -> (r: String)
    ensures
        r@ == invocation_key(
            name@,
            match binary {
                Some(b) => Some(b@),
                None => None,
            },
        ),
{
    let mut r = name.to_owned();
    match binary {
        Some(b) => {
            push_str(&mut r, "::");
            push_str(&mut r, b);
        },
        None => {},
    }
    r
}

/// The shims to create for package `name` with descriptor `index`.
pub fn shims_for(name: &str, index: &PackageIndex) -> (r: Vec<Shim>)
    ensures
        r@.map_values(|s: Shim| shim_view(s)) == shim_plan(name@, *index),
{
    let mut r: Vec<Shim> = Vec::new();
    if !index.only_shim_binaries {
        r.push(Shim { name: name.to_owned(), command: shim_command(name, None) });
    }
    let ghost head = r@.map_values(|s: Shim| shim_view(s));
    assert(head =~= if index.only_shim_binaries {
        Seq::empty()
    } else {
        seq![(name@, name@)]
    });
    let ghost tail = index.binary_list().map_values(
        |b: crate::configs::index::Binary| (b.name@, invocation_key(name@, Some(b.name@))),
    );
    match &index.binaries {
        None => {
            assert(r@.map_values(|s: Shim| shim_view(s)) =~= head + tail);
        },
        Some(binaries) => {
            let mut i: usize = 0;
            while i < binaries.len()
                invariant
                    0 <= i <= binaries.len(),
                    binaries@ == index.binary_list(),
                    tail.len() == binaries@.len(),
                    tail == index.binary_list().map_values(
                        |b: crate::configs::index::Binary|
                            (b.name@, invocation_key(name@, Some(b.name@))),
                    ),
                    r@.map_values(|s: Shim| shim_view(s)) == head + tail.subrange(0, i as int),
                decreases binaries.len() - i,
            {
                let bin_name = binaries[i].name.as_str();
                let shim = Shim { name: bin_name.to_owned(), command: shim_command(name, Some(bin_name)) };
                let ghost before = r@;
                r.push(shim);
                assert(r@.map_values(|s: Shim| shim_view(s)) =~= before.map_values(
                    |s: Shim| shim_view(s),
                ).push(tail[i as int]));
                assert(tail.subrange(0, i + 1) =~= tail.subrange(0, i as int).push(tail[i as int]));
                i = i + 1;
            }
            assert(tail.subrange(0, binaries.len() as int) =~= tail);
        },
    }
    r
}

/// The file names of the shims of package `name`, as `shims_for` places
/// them.
pub fn shim_names_for(name: &str, index: &PackageIndex) -> (r: Vec<String>)
    ensures
        strs(r@) == shim_names(name@, *index),
{
    let shims = shims_for(name, index);
    let mut r: Vec<String> = Vec::new();
    let mut i: usize = 0;
    while i < shims.len()
        invariant
            0 <= i <= shims.len(),
            shims@.map_values(|s: Shim| shim_view(s)) == shim_plan(name@, *index),
            strs(r@) == shims@.subrange(0, i as int).map_values(|s: Shim| s.name@),
        decreases shims.len() - i,
    {
        r.push(shims[i].name.clone());
        assert(shims@.subrange(0, i + 1).map_values(|s: Shim| s.name@) =~= shims@.subrange(
            0,
            i as int,
        ).map_values(|s: Shim| s.name@).push(shims@[i as int].name@));
        assert(strs(r@) =~= shims@.subrange(0, i + 1).map_values(|s: Shim| s.name@));
        i = i + 1;
    }
    assert(shims@.subrange(0, shims.len() as int) =~= shims@);
    assert(shim_names(name@, *index).len() == shims@.len());
    assert forall|k: int| 0 <= k < shims@.len() implies shim_names(name@, *index)[k] == shims@[k].name@ by {
        assert(shims@.map_values(|s: Shim| shim_view(s))[k] == shim_view(shims@[k]));
    }
    assert(strs(r@) =~= shim_names(name@, *index));
    r
}

/// Content of a shim that forwards `command` and every argument it gets
/// to the `run` command, unmodified.
pub open spec fn shim_script_text(command: Seq<char>, windows: bool) -> Seq<char> {
    if windows {
        "@echo off\nhbox.exe run "@ + command + " %*\n"@
    } else {
        "#!/bin/sh\nhbox run "@ + command + " \"$@\"\n"@
    }
}

/// Builds the content of the shim for `command`: a batch file on Windows,
/// a POSIX shell script elsewhere.
pub fn shim_script(command: &str, windows: bool) -> (r: String)
    ensures
        r@ == shim_script_text(command@, windows),
{
    if windows {
        let mut r = "@echo off\nhbox.exe run ".to_owned();
        push_str(&mut r, command);
        push_str(&mut r, " %*\n");
        r
    } else {
        let mut r = "#!/bin/sh\nhbox run ".to_owned();
        push_str(&mut r, command);
        push_str(&mut r, " \"$@\"\n");
        r
    }
}

/// Where the shim called `name` lives in `shims_dir`: `name.bat` on
/// Windows, `name` elsewhere.
pub fn get_shims_path(shims_dir: &str, name: &str, windows: bool) -> (r: String)
    ensures
        r@ == path_join(shims_dir@, if windows { name@ + ".bat"@ } else { name@ }),
{
    if windows {
        let mut file = name.to_owned();
        push_str(&mut file, ".bat");
        join_path(shims_dir, file.as_str())
    } else {
        join_path(shims_dir, name)
    }
}

} // verus!
