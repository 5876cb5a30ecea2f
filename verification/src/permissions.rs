//! Which files of an unpacked toolchain have to be made executable.

use crate::text::{chars_of, has_prefix, views};
use vstd::prelude::*;
use vstd::string::*;

verus! {

/// The mode that makes a tool executable: read, write and execute for the
/// owner, read and execute for everyone else.
pub const EXECUTABLE_MODE: u32 = 0o755;

/// An entry of the `bin` directory of a toolchain: its name, and whether it
/// is a regular file.
#[derive(Debug, Clone, PartialEq, Eq)]
pub struct BinEntry {
    pub file_name: String,
    pub is_file: bool,
}

/// The name of an entry, where the entry is a tool of the toolchain: a
/// regular file whose name starts with `llvm-`.
pub open spec fn tool_name(entry: BinEntry) -> Option<Seq<char>> {
    if entry.is_file && "llvm-"@.is_prefix_of(entry.file_name@) {
        Some(entry.file_name@)
    } else {
        None
    }
}

/// The files that have to be made executable: on a POSIX host the tools among
/// the entries, in the order of the entries; elsewhere none.
pub open spec fn executables(entries: Seq<BinEntry>, posix: bool) -> Seq<Seq<char>> {
    if posix {
        entries.filter_map(|entry: BinEntry| tool_name(entry))
    } else {
        Seq::empty()
    }
}

/// Whether `entry` is a tool of the toolchain.
pub fn is_tool(entry: &BinEntry) -> (r: bool)
    ensures
        r == tool_name(*entry) is Some,
{
    entry.is_file && has_prefix(&chars_of(entry.file_name.as_str()), &chars_of("llvm-"))
}

/// The names of the files in the `bin` directory of a toolchain that have to
/// be given the mode [`EXECUTABLE_MODE`], `entries` being the entries of that
/// directory and `posix` saying whether the host is a POSIX system.
pub fn set_permissions_on_bin(entries: &Vec<BinEntry>, posix: bool) -> (bin_files: Vec<String>)
    ensures
        views(bin_files@) == executables(entries@, posix),
{
    let mut bin_files: Vec<String> = Vec::new();
    assert(views(bin_files@) =~= Seq::<Seq<char>>::empty());
    if !posix {
        return bin_files;
    }
    let ghost named = |entry: BinEntry| tool_name(entry);
    assert(entries@.take(0).filter_map(named) =~= Seq::<Seq<char>>::empty());
    for i in 0..entries.len()
        invariant
            named == |entry: BinEntry| tool_name(entry),
            views(bin_files@) == entries@.take(i as int).filter_map(named),
    {
        let ghost before = views(bin_files@);
        proof {
            entries@.lemma_filter_map_take_succ(named, i as int);
        }
        if is_tool(&entries[i]) {
            bin_files.push(entries[i].file_name.clone());
            assert(views(bin_files@) =~= before + seq![entries@[i as int].file_name@]);
        } else {
            assert(views(bin_files@) =~= before + Seq::<Seq<char>>::empty());
        }
    }
    assert(entries@.take(entries.len() as int) =~= entries@);
    bin_files
}

/// A file is made executable exactly when the host is a POSIX system and the
/// file is a tool among the entries.
pub proof fn lemma_executables_are_the_tools(entries: Seq<BinEntry>, posix: bool, name: Seq<char>)
    ensures
        executables(entries, posix).contains(name) <==> posix && exists|i: int|
            0 <= i < entries.len() && #[trigger] tool_name(entries[i]) == Some(name),
    decreases entries.len(),
{
    let named = |entry: BinEntry| tool_name(entry);
    if posix && entries.len() > 0 {
        let front = entries.drop_last();
        let last = entries.len() - 1;
        lemma_executables_are_the_tools(front, posix, name);
        let found = front.filter_map(named);
        assert forall|i: int| 0 <= i < front.len() implies front[i] == entries[i] by {}
        match tool_name(entries.last()) {
            Some(tool) => {
                let all = found + seq![tool];
                assert(entries.filter_map(named) == all);
                if all.contains(name) {
                    let k = choose|k: int| 0 <= k < all.len() && all[k] == name;
                    if k < found.len() {
                        assert(found[k] == name);
                        assert(found.contains(name));
                        let i = choose|i: int|
                            0 <= i < front.len() && #[trigger] tool_name(front[i]) == Some(name);
                        assert(tool_name(entries[i]) == Some(name));
                    } else {
                        assert(tool_name(entries[last]) == Some(name));
                    }
                }
                if exists|i: int|
                    0 <= i < entries.len() && #[trigger] tool_name(entries[i]) == Some(name) {
                    let i = choose|i: int|
                        0 <= i < entries.len() && #[trigger] tool_name(entries[i]) == Some(name);
                    if i < last {
                        assert(tool_name(front[i]) == Some(name));
                        let k = choose|k: int| 0 <= k < found.len() && found[k] == name;
                        assert(all[k] == name);
                    } else {
                        assert(all[found.len() as int] == name);
                    }
                }
            },
            None => {
                assert(entries.filter_map(named) == found);
                if exists|i: int|
                    0 <= i < entries.len() && #[trigger] tool_name(entries[i]) == Some(name) {
                    let i = choose|i: int|
                        0 <= i < entries.len() && #[trigger] tool_name(entries[i]) == Some(name);
                    assert(i < last);
                    assert(tool_name(front[i]) == Some(name));
                }
                if found.contains(name) {
                    let i = choose|i: int|
                        0 <= i < front.len() && #[trigger] tool_name(front[i]) == Some(name);
                    assert(tool_name(entries[i]) == Some(name));
                }
            },
        }
    }
}

} // verus!
