//! Properties that relate several operations of the filesystem.

use vstd::prelude::*;
use crate::filesystem::{zeros, FileSystem};

verus! {

/// A successful creation lowers the free-inode and free-block counters by
/// exactly one each, and reading the new file yields a block of zero bytes.
pub proof fn lemma_create_then_read(pre: FileSystem, post: FileSystem, name: Seq<char>, n: int)
    requires
        pre.wf(),
        FileSystem::created(pre, post, name, n),
    ensures
        post.superblock.free_inode_count == pre.superblock.free_inode_count - 1,
        post.superblock.free_block_count == pre.superblock.free_block_count - 1,
        post.content(n) == Some(zeros(pre.block_size())),
{
    let b = post.inodes@[n].block();
    assert(!pre.block_used@[b]);
    assert(pre.block_data(b) == zeros(pre.block_size()));
}

/// Reading a file right after writing `data` to it yields a block that
/// starts with `data`, and the file's size is the length of `data`.
pub proof fn lemma_write_then_read(pre: FileSystem, post: FileSystem, n: int, data: Seq<u8>)
    requires
        pre.wf(),
        0 <= n < pre.inodes@.len(),
        pre.inodes@[n].is_file(),
        data.len() <= pre.block_size(),
        FileSystem::written(pre, post, n, data),
    ensures
        post.content(n) is Some,
        post.content(n)->Some_0.subrange(0, data.len() as int) == data,
        post.inodes@[n].size == data.len(),
{
    let b = pre.inodes@[n].block();
    assert(pre.block_data(b).len() == pre.block_size());
    assert(post.block_data(b).subrange(0, data.len() as int) =~= data);
}

/// Writing the same data twice in a row leaves what a read yields as it was
/// after the first write.
pub proof fn lemma_write_twice(
    pre: FileSystem,
    mid: FileSystem,
    post: FileSystem,
    n: int,
    data: Seq<u8>,
)
    requires
        pre.wf(),
        0 <= n < pre.inodes@.len(),
        pre.inodes@[n].is_file(),
        data.len() <= pre.block_size(),
        FileSystem::written(pre, mid, n, data),
        FileSystem::written(mid, post, n, data),
    ensures
        post.content(n) == mid.content(n),
{
    let b = pre.inodes@[n].block();
    let len = data.len() as int;
    let bs = pre.block_size() as int;
    assert(pre.block_data(b).len() == bs);
    assert(mid.block_data(b).subrange(len, bs) =~= pre.block_data(b).subrange(len, bs));
}

/// Starting from a freshly built filesystem, each of `inode_count` successful
/// creations leaves inode capacity for the next, and after the last of them
/// none is left, so the next creation fails with `NoFreeInode`.
pub proof fn lemma_capacity_exhausted(
    states: Seq<FileSystem>,
    names: Seq<Seq<char>>,
    ns: Seq<int>,
    size: u32,
    block_size: u32,
    inode_count: u32,
)
    requires
        states.len() == inode_count + 1,
        names.len() == inode_count,
        ns.len() == inode_count,
        states[0].is_initial(size, block_size, inode_count),
        forall|k: int|
            0 <= k < inode_count ==> FileSystem::created(
                #[trigger] states[k],
                states[k + 1],
                names[k],
                ns[k],
            ),
    ensures
        forall|k: int|
            0 <= k <= inode_count ==> #[trigger] states[k].superblock.free_inode_count
                == inode_count - k,
        forall|k: int| 0 <= k < inode_count ==> #[trigger] states[k].superblock.free_inode_count > 0,
        states[inode_count as int].superblock.free_inode_count == 0,
{
    assert forall|k: int| 0 <= k <= inode_count implies #[trigger] states[k].superblock.free_inode_count
        == inode_count - k by {
        lemma_count_down(states, names, ns, inode_count, k);
    }
    assert forall|k: int| 0 <= k < inode_count implies #[trigger] states[k].superblock.free_inode_count > 0 by {
        lemma_count_down(states, names, ns, inode_count, k);
    }
    lemma_count_down(states, names, ns, inode_count, inode_count as int);
}

proof fn lemma_count_down(
    states: Seq<FileSystem>,
    names: Seq<Seq<char>>,
    ns: Seq<int>,
    inode_count: u32,
    k: int,
)
    requires
        states.len() == inode_count + 1,
        0 <= k <= inode_count,
        states[0].superblock.free_inode_count == inode_count,
        forall|j: int|
            0 <= j < inode_count ==> FileSystem::created(
                #[trigger] states[j],
                states[j + 1],
                names[j],
                ns[j],
            ),
    ensures
        states[k].superblock.free_inode_count == inode_count - k,
    decreases k,
{
    if k > 0 {
        lemma_count_down(states, names, ns, inode_count, k - 1);
        assert(FileSystem::created(states[k - 1], states[k], names[k - 1], ns[k - 1]));
    }
}

} // verus!
