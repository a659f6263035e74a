//! The storage engine: superblock, inode table, data-block pool and directory.

use vstd::prelude::*;
use crate::counting::{
    count_set, is_first_set, lemma_count_all_set, lemma_count_clear, lemma_count_none_set,
};
use crate::names::{
    decode_name, decoded_name, kept_name, lemma_kept_name_valid, name_buffer, NAME_WIDTH,
};

verus! {

/// Number of block pointers an inode holds; files use only the first.
pub const BLOCK_POINTERS: usize = 12;

/// Capacity and accounting record of a filesystem.
#[derive(Clone, Copy, Debug)]
pub struct Superblock {
    pub size: u32,
    pub block_size: u32,
    pub inode_count: u32,
    pub free_inode_count: u32,
    pub free_block_count: u32,
}

/// State of an inode slot.
#[derive(Clone, Copy, Debug, PartialEq, Eq, Structural)]
pub enum InodeKind {
    Free,
    File,
}

/// Per-file metadata: kind, bytes written and block pointers.
#[derive(Clone, Copy, Debug)]
pub struct Inode {
    pub kind: InodeKind,
    pub size: u32,
    pub block_pointers: [u32; 12],
}

/// A directory entry: a name in a fixed-width buffer bound to an inode number.
/// The first `name_len` bytes of `name` hold the name; the rest are zero.
#[derive(Clone, Copy, Debug)]
pub struct Dirent {
    pub inode: u32,
    pub name: [u8; 32],
    pub name_len: usize,
}

/// A data block: `block_size` bytes of file content.
#[derive(Debug)]
pub struct DataBlock {
    pub data: Vec<u8>,
}

/// Why an operation was refused.
#[derive(Clone, Copy, Debug, PartialEq, Eq, Structural)]
pub enum FsError {
    /// The inode capacity is used up.
    NoFreeInode,
    /// Every data block is taken.
    NoFreeBlock,
    /// The inode is not a file.
    NotAFile,
    /// The data does not fit in one block.
    DataTooLarge,
    /// The inode number is outside the inode table.
    InvalidHandle,
}

/// The whole filesystem. Inode slots and data blocks are all allocated when
/// it is built; `block_used` records which blocks belong to a file.
pub struct FileSystem {
    pub superblock: Superblock,
    pub inodes: Vec<Inode>,
    pub data_blocks: Vec<DataBlock>,
    pub block_used: Vec<bool>,
    pub dirents: Vec<Dirent>,
}

/// `n` zero bytes.
pub open spec fn zeros(n: nat) -> Seq<u8> {
    Seq::new(n, |i: int| 0u8)
}

impl Inode {
    pub open spec fn is_file(&self) -> bool {
        self.kind == InodeKind::File
    }

    /// The data block of a file.
    pub open spec fn block(&self) -> int {
        self.block_pointers@[0] as int
    }
}

impl Dirent {
    /// The bytes of the stored name.
    pub open spec fn stored_name(&self) -> Seq<u8> {
        self.name@.subrange(0, self.name_len as int)
    }
}

impl FileSystem {
    pub open spec fn block_size(&self) -> nat {
        self.superblock.block_size as nat
    }

    /// For each inode slot, whether it is free.
    pub open spec fn free_inode_flags(&self) -> Seq<bool> {
        Seq::new(self.inodes@.len(), |i: int| self.inodes@[i].kind == InodeKind::Free)
    }

    /// For each data block, whether it is free.
    pub open spec fn free_block_flags(&self) -> Seq<bool> {
        Seq::new(self.block_used@.len(), |b: int| !self.block_used@[b])
    }

    pub open spec fn block_data(&self, b: int) -> Seq<u8> {
        self.data_blocks@[b].data@
    }

    /// What reading inode `n` yields: the whole block of a file, nothing for
    /// a free slot or a number outside the table.
    pub open spec fn content(&self, n: int) -> Option<Seq<u8>> {
        if 0 <= n < self.inodes@.len() && self.inodes@[n].is_file() {
            Some(self.block_data(self.inodes@[n].block()))
        } else {
            None
        }
    }

    /// The invariant every operation keeps.
    pub open spec fn wf(&self) -> bool {
        &&& self.superblock.block_size > 0
        &&& self.inodes@.len() == self.superblock.inode_count
        &&& self.block_used@.len() == self.data_blocks@.len()
        &&& self.data_blocks@.len() <= u32::MAX
        &&& forall|b: int|
            0 <= b < self.data_blocks@.len() ==> #[trigger] self.block_data(b).len()
                == self.block_size()
        &&& forall|b: int|
            0 <= b < self.data_blocks@.len() && !self.block_used@[b] ==> #[trigger] self.block_data(
                b,
            ) == zeros(self.block_size())
        &&& forall|i: int|
            0 <= i < self.inodes@.len() && #[trigger] self.inodes@[i].is_file() ==> {
                &&& 0 <= self.inodes@[i].block() < self.data_blocks@.len()
                &&& self.block_used@[self.inodes@[i].block()]
            }
        &&& forall|i: int, j: int|
            0 <= i < self.inodes@.len() && 0 <= j < self.inodes@.len() && i != j
                && #[trigger] self.inodes@[i].is_file() && #[trigger] self.inodes@[j].is_file()
                ==> self.inodes@[i].block() != self.inodes@[j].block()
        &&& self.superblock.free_inode_count == count_set(self.free_inode_flags())
        &&& self.superblock.free_block_count == count_set(self.free_block_flags())
        &&& forall|k: int|
            0 <= k < self.dirents@.len() ==> {
                &&& #[trigger] self.dirents@[k].name_len <= NAME_WIDTH
                &&& self.dirents@[k].inode < self.inodes@.len()
            }
    }

    /// `self` is a filesystem just built with these parameters: every inode
    /// slot free, every block free and zero, the directory empty.
    pub open spec fn is_initial(&self, size: u32, block_size: u32, inode_count: u32) -> bool {
        &&& self.superblock.size == size
        &&& self.superblock.block_size == block_size
        &&& self.superblock.inode_count == inode_count
        &&& self.superblock.free_inode_count == inode_count
        &&& self.superblock.free_block_count == size / block_size
        &&& self.inodes@.len() == inode_count
        &&& forall|i: int| 0 <= i < inode_count ==> #[trigger] self.inodes@[i].kind == InodeKind::Free
        &&& self.data_blocks@.len() == size / block_size
        &&& forall|b: int| 0 <= b < self.data_blocks@.len() ==> !#[trigger] self.block_used@[b]
        &&& self.dirents@.len() == 0
    }

    /// `post` is `pre` after a successful creation of a file named `name` as
    /// inode `n`: the first free slot becomes a file of size zero bound to the
    /// first free block, both counters drop by one, and the directory gains an
    /// entry holding the kept bytes of the name.
    pub open spec fn created(pre: Self, post: Self, name: Seq<char>, n: int) -> bool {
        let b = post.inodes@[n].block();
        let d = post.dirents@.last();
        &&& is_first_set(pre.free_inode_flags(), n)
        &&& is_first_set(pre.free_block_flags(), b)
        &&& post.inodes@.len() == pre.inodes@.len()
        &&& forall|i: int| 0 <= i < pre.inodes@.len() && i != n ==> post.inodes@[i] == pre.inodes@[i]
        &&& post.inodes@[n].kind == InodeKind::File
        &&& post.inodes@[n].size == 0
        &&& post.inodes@[n].block_pointers@ == Seq::new(
            BLOCK_POINTERS as nat,
            |k: int|
                if k == 0 {
                    b as u32
                } else {
                    0u32
                },
        )
        &&& post.block_used@ == pre.block_used@.update(b, true)
        &&& post.data_blocks@ == pre.data_blocks@
        &&& post.dirents@.len() == pre.dirents@.len() + 1
        &&& post.dirents@.drop_last() == pre.dirents@
        &&& d.inode == n
        &&& d.name_len == kept_name(name).len()
        &&& d.name@ == kept_name(name) + zeros((NAME_WIDTH - d.name_len) as nat)
        &&& post.superblock.size == pre.superblock.size
        &&& post.superblock.block_size == pre.superblock.block_size
        &&& post.superblock.inode_count == pre.superblock.inode_count
        &&& post.superblock.free_inode_count == pre.superblock.free_inode_count - 1
        &&& post.superblock.free_block_count == pre.superblock.free_block_count - 1
    }

    /// `post` is `pre` after `data` was written to the file at inode `n`: the
    /// data overwrites the start of the file's block, the rest of the block
    /// stays as it was, and the file's size becomes the length of the data.
    pub open spec fn written(pre: Self, post: Self, n: int, data: Seq<u8>) -> bool {
        let b = pre.inodes@[n].block();
        &&& post.inodes@.len() == pre.inodes@.len()
        &&& forall|i: int| 0 <= i < pre.inodes@.len() && i != n ==> post.inodes@[i] == pre.inodes@[i]
        &&& post.inodes@[n].kind == pre.inodes@[n].kind
        &&& post.inodes@[n].block_pointers == pre.inodes@[n].block_pointers
        &&& post.inodes@[n].size == data.len()
        &&& post.data_blocks@.len() == pre.data_blocks@.len()
        &&& forall|c: int|
            0 <= c < pre.data_blocks@.len() && c != b ==> post.data_blocks@[c] == pre.data_blocks@[c]
        &&& post.block_data(b) == data + pre.block_data(b).subrange(
            data.len() as int,
            pre.block_size() as int,
        )
        &&& post.block_used == pre.block_used
        &&& post.dirents == pre.dirents
        &&& post.superblock == pre.superblock
    }

    /// Builds a filesystem of `size / block_size` blocks and `inode_count`
    /// inode slots, all free.
    pub fn new(size: u32, block_size: u32, inode_count: u32) -> (r: Self)
        requires
            block_size > 0,
        ensures
            r.wf(),
            r.is_initial(size, block_size, inode_count),
    {
        let block_count = size / block_size;
        let superblock = Superblock {
            size,
            block_size,
            inode_count,
            free_inode_count: inode_count,
            free_block_count: block_count,
        };
        let mut inodes: Vec<Inode> = Vec::new();
        let mut i: u32 = 0;
        while i < inode_count
            invariant
                i <= inode_count,
                inodes@.len() == i,
                forall|j: int| 0 <= j < i ==> #[trigger] inodes@[j].kind == InodeKind::Free,
            decreases inode_count - i,
        {
            inodes.push(Inode { kind: InodeKind::Free, size: 0, block_pointers: [0u32; 12] });
            i = i + 1;
        }
        let mut data_blocks: Vec<DataBlock> = Vec::new();
        let mut block_used: Vec<bool> = Vec::new();
        let mut b: u32 = 0;
        while b < block_count
            invariant
                b <= block_count,
                data_blocks@.len() == b,
                block_used@.len() == b,
                forall|j: int| 0 <= j < b ==> !#[trigger] block_used@[j],
                forall|j: int|
                    0 <= j < b ==> #[trigger] data_blocks@[j].data@ == zeros(block_size as nat),
            decreases block_count - b,
        {
            data_blocks.push(DataBlock { data: zero_bytes(block_size as usize) });
            block_used.push(false);
            b = b + 1;
        }
        let r = FileSystem { superblock, inodes, data_blocks, block_used, dirents: Vec::new() };
        proof {
            lemma_count_all_set(r.free_inode_flags());
            lemma_count_all_set(r.free_block_flags());
        }
        r
    }

    /// Creates a file named `name` in the first free inode slot, bound to the
    /// first free data block, and records it in the directory. A name longer
    /// than the name buffer keeps its longest prefix that fits and ends on a
    /// character boundary.
    pub fn create_file(&mut self, name: &str) -> (r: Result<u32, FsError>)
        requires
            old(self).wf(),
        ensures
            final(self).wf(),
            old(self).superblock.free_inode_count == 0 ==> r == Err::<u32, FsError>(
                FsError::NoFreeInode,
            ),
            old(self).superblock.free_inode_count > 0 && old(self).superblock.free_block_count == 0
                ==> r == Err::<u32, FsError>(FsError::NoFreeBlock),
            old(self).superblock.free_inode_count > 0 && old(self).superblock.free_block_count > 0
                ==> r is Ok,
            r is Err ==> *final(self) == *old(self),
            r matches Ok(n) ==> Self::created(*old(self), *final(self), name@, n as int),
    {
        if self.superblock.free_inode_count == 0 {
            return Err(FsError::NoFreeInode);
        }
        let mut n: usize = 0;
        while n < self.inodes.len() && self.inodes[n].kind != InodeKind::Free
            invariant
                n <= self.inodes@.len(),
                forall|j: int| 0 <= j < n ==> !self.free_inode_flags()[j],
            decreases self.inodes@.len() - n,
        {
            n = n + 1;
        }
        if n == self.inodes.len() {
            proof {
                lemma_count_none_set(self.free_inode_flags());
            }
            return Err(FsError::NoFreeInode);
        }
        let mut b: usize = 0;
        while b < self.block_used.len() && self.block_used[b]
            invariant
                b <= self.block_used@.len(),
                forall|j: int| 0 <= j < b ==> !self.free_block_flags()[j],
            decreases self.block_used@.len() - b,
        {
            b = b + 1;
        }
        if b == self.block_used.len() {
            proof {
                lemma_count_none_set(self.free_block_flags());
            }
            return Err(FsError::NoFreeBlock);
        }
        let ghost pre = *self;
        proof {
            lemma_count_clear(pre.free_inode_flags(), n as int);
            lemma_count_clear(pre.free_block_flags(), b as int);
            lemma_kept_name_valid(name@);
        }
        let mut block_pointers = [0u32; 12];
        block_pointers[0] = b as u32;
        self.inodes.set(n, Inode { kind: InodeKind::File, size: 0, block_pointers });
        self.block_used.set(b, true);
        self.superblock.free_inode_count = self.superblock.free_inode_count - 1;
        self.superblock.free_block_count = self.superblock.free_block_count - 1;
        let (name, name_len) = name_buffer(name);
        self.dirents.push(Dirent { inode: n as u32, name, name_len });
        proof {
            assert(self.free_inode_flags() =~= pre.free_inode_flags().update(n as int, false));
            assert(self.free_block_flags() =~= pre.free_block_flags().update(b as int, false));
            assert(self.dirents@.drop_last() =~= pre.dirents@);
            assert forall|i: int| 0 <= i < self.inodes@.len() && i != n && #[trigger] self.inodes@[i].is_file()
                implies self.inodes@[i].block() != b by {
                assert(pre.inodes@[i].is_file());
            }
            assert(forall|c: int| 0 <= c < self.data_blocks@.len() ==> #[trigger] self.block_data(c) == pre.block_data(c));
            assert(self.inodes@[n as int].block_pointers@ =~= Seq::new(
                BLOCK_POINTERS as nat,
                |k: int|
                    if k == 0 {
                        b as u32
                    } else {
                        0u32
                    },
            ));
        }
        Ok(n as u32)
    }

    /// The whole block of the file at inode `inode_index`, or `None` where
    /// that inode is free or outside the table.
    pub fn read_file(&self, inode_index: u32) -> (r: Option<&[u8]>)
        requires
            self.wf(),
        ensures
            r is Some <==> self.content(inode_index as int) is Some,
            r matches Some(s) ==> s@ == self.content(inode_index as int)->Some_0,
    {
        let n = inode_index as usize;
        if n >= self.inodes.len() {
            return None;
        }
        if self.inodes[n].kind == InodeKind::Free {
            return None;
        }
        let b = self.inodes[n].block_pointers[0] as usize;
        Some(self.data_blocks[b].data.as_slice())
    }

    /// Writes `data` at the start of the block of the file at inode
    /// `inode_index` and sets the file's size to its length.
    pub fn write_file(&mut self, inode_index: u32, data: &[u8]) -> (r: Result<(), FsError>)
        requires
            old(self).wf(),
        ensures
            final(self).wf(),
            inode_index >= old(self).inodes@.len() ==> r == Err::<(), FsError>(
                FsError::InvalidHandle,
            ),
            inode_index < old(self).inodes@.len() && !old(self).inodes@[inode_index as int].is_file()
                ==> r == Err::<(), FsError>(FsError::NotAFile),
            inode_index < old(self).inodes@.len() && old(self).inodes@[inode_index as int].is_file()
                && data@.len() > old(self).block_size() ==> r == Err::<(), FsError>(
                FsError::DataTooLarge,
            ),
            inode_index < old(self).inodes@.len() && old(self).inodes@[inode_index as int].is_file()
                && data@.len() <= old(self).block_size() ==> r is Ok,
            r is Err ==> *final(self) == *old(self),
            r is Ok ==> Self::written(*old(self), *final(self), inode_index as int, data@),
    {
        let n = inode_index as usize;
        if n >= self.inodes.len() {
            return Err(FsError::InvalidHandle);
        }
        let mut inode = self.inodes[n];
        if inode.kind == InodeKind::Free {
            return Err(FsError::NotAFile);
        }
        let b = inode.block_pointers[0] as usize;
        if data.len() > self.superblock.block_size as usize {
            return Err(FsError::DataTooLarge);
        }
        let ghost pre = *self;
        proof {
            assert(pre.inodes@[n as int].is_file());
            assert(pre.block_data(b as int).len() == pre.block_size());
        }
        overwrite_prefix(&mut self.data_blocks[b].data, data);
        inode.size = data.len() as u32;
        self.inodes.set(n, inode);
        proof {
            assert(self.free_inode_flags() =~= pre.free_inode_flags());
            assert(self.free_block_flags() =~= pre.free_block_flags());
            assert forall|i: int| 0 <= i < self.inodes@.len() && #[trigger] self.inodes@[i].is_file()
                implies self.inodes@[i].block() == pre.inodes@[i].block() && pre.inodes@[i].is_file() by {
            }
            assert(pre.block_used@[b as int]);
            assert forall|c: int| 0 <= c < self.data_blocks@.len() && c != b
                implies #[trigger] self.block_data(c) == pre.block_data(c) by {
            }
            assert(self.block_data(b as int).len() == self.block_size());
        }
        Ok(())
    }

    /// The directory in insertion order: each entry's name decoded as text
    /// (empty where its bytes are not well-formed UTF-8) with its inode number.
    pub fn list_files(&self) -> (r: Vec<(String, u32)>)
        requires
            self.wf(),
        ensures
            r@.len() == self.dirents@.len(),
            forall|k: int|
                0 <= k < r@.len() ==> {
                    &&& (#[trigger] r@[k]).0@ == decoded_name(self.dirents@[k].stored_name())
                    &&& r@[k].1 == self.dirents@[k].inode
                },
    {
        let mut r: Vec<(String, u32)> = Vec::new();
        let mut k: usize = 0;
        while k < self.dirents.len()
            invariant
                self.wf(),
                k <= self.dirents@.len(),
                r@.len() == k,
                forall|j: int|
                    0 <= j < k ==> {
                        &&& (#[trigger] r@[j]).0@ == decoded_name(self.dirents@[j].stored_name())
                        &&& r@[j].1 == self.dirents@[j].inode
                    },
            decreases self.dirents@.len() - k,
        {
            let d = &self.dirents[k];
            let bytes = vstd::slice::slice_subrange(d.name.as_slice(), 0, d.name_len);
            r.push((decode_name(bytes), d.inode));
            k = k + 1;
        }
        r
    }
}

/// Overwrites the start of `dst` with `src`.
fn overwrite_prefix(dst: &mut Vec<u8>, src: &[u8])
    requires
        src@.len() <= old(dst)@.len(),
    ensures
        final(dst)@ == src@ + old(dst)@.subrange(src@.len() as int, old(dst)@.len() as int),
{
    let ghost orig = dst@;
    let mut i: usize = 0;
    while i < src.len()
        invariant
            src@.len() <= orig.len(),
            dst@.len() == orig.len(),
            i <= src@.len(),
            forall|j: int| 0 <= j < i ==> dst@[j] == src@[j],
            forall|j: int| i <= j < orig.len() ==> dst@[j] == orig[j],
        decreases src@.len() - i,
    {
        dst.set(i, src[i]);
        i = i + 1;
    }
    assert(dst@ =~= src@ + orig.subrange(src@.len() as int, orig.len() as int));
}

/// A buffer of `n` zero bytes.
fn zero_bytes(n: usize) -> (r: Vec<u8>)
    ensures
        r@ == zeros(n as nat),
{
    let mut v: Vec<u8> = Vec::new();
    let mut i: usize = 0;
    while i < n
        invariant
            i <= n,
            v@ == zeros(i as nat),
        decreases n - i,
    {
        v.push(0u8);
        i = i + 1;
        assert(v@ =~= zeros(i as nat));
    }
    v
}

} // verus!
