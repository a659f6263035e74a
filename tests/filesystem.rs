use rust_xv6_fs::filesystem::{FileSystem, FsError, InodeKind};
use rust_xv6_fs::names::decode_name;
use rust_xv6_fs::u32_to_string;

fn hello_fs() -> FileSystem {
    FileSystem::new(1024 * 1024, 512, 100)
}

#[test]
fn new_sets_counters_and_preallocates() {
    let fs = hello_fs();
    assert_eq!(fs.superblock.size, 1024 * 1024);
    assert_eq!(fs.superblock.block_size, 512);
    assert_eq!(fs.superblock.inode_count, 100);
    assert_eq!(fs.superblock.free_inode_count, 100);
    assert_eq!(fs.superblock.free_block_count, 2048);
    assert_eq!(fs.inodes.len(), 100);
    assert_eq!(fs.data_blocks.len(), 2048);
    assert!(fs.inodes.iter().all(|i| i.kind == InodeKind::Free));
    assert!(fs.data_blocks.iter().all(|b| b.data.len() == 512 && b.data.iter().all(|x| *x == 0)));
    assert!(fs.list_files().is_empty());
}

#[test]
fn hello_world_scenario() {
    let mut fs = hello_fs();
    assert_eq!(fs.create_file("hello.txt"), Ok(0));
    assert_eq!(fs.write_file(0, b"Hello, World!"), Ok(()));
    let block = fs.read_file(0).unwrap();
    assert_eq!(block.len(), 512);
    assert_eq!(&block[..13], b"Hello, World!");
    assert!(block[13..].iter().all(|x| *x == 0));
    assert_eq!(fs.list_files(), vec![("hello.txt".to_string(), 0u32)]);
}

#[test]
fn create_decrements_counters_and_gives_zero_block() {
    let mut fs = hello_fs();
    let n = fs.create_file("a").unwrap();
    assert_eq!(fs.superblock.free_inode_count, 99);
    assert_eq!(fs.superblock.free_block_count, 2047);
    let block = fs.read_file(n).unwrap();
    assert_eq!(block.len(), 512);
    assert!(block.iter().all(|x| *x == 0));
    let m = fs.create_file("b").unwrap();
    assert_eq!(m, 1);
    assert_eq!(fs.superblock.free_inode_count, 98);
    assert_eq!(fs.superblock.free_block_count, 2046);
    assert_ne!(fs.inodes[0].block_pointers[0], fs.inodes[1].block_pointers[0]);
    assert!(fs.inodes[1].block_pointers[1..].iter().all(|p| *p == 0));
}

#[test]
fn write_then_read_returns_data_and_sets_size() {
    let mut fs = hello_fs();
    let n = fs.create_file("f").unwrap();
    let data = [7u8, 8, 9, 10];
    assert_eq!(fs.write_file(n, &data), Ok(()));
    assert_eq!(&fs.read_file(n).unwrap()[..4], &data);
    assert_eq!(fs.inodes[n as usize].size, 4);
}

#[test]
fn shorter_write_keeps_rest_of_block() {
    let mut fs = hello_fs();
    let n = fs.create_file("f").unwrap();
    fs.write_file(n, b"abcdef").unwrap();
    fs.write_file(n, b"XY").unwrap();
    assert_eq!(&fs.read_file(n).unwrap()[..6], b"XYcdef");
    assert_eq!(fs.inodes[n as usize].size, 2);
}

#[test]
fn write_full_block_is_accepted() {
    let mut fs = hello_fs();
    let n = fs.create_file("f").unwrap();
    let data = vec![0xabu8; 512];
    assert_eq!(fs.write_file(n, &data), Ok(()));
    assert_eq!(fs.read_file(n).unwrap(), &data[..]);
    assert_eq!(fs.inodes[n as usize].size, 512);
}

#[test]
fn write_too_large_fails_without_change() {
    let mut fs = hello_fs();
    let n = fs.create_file("f").unwrap();
    fs.write_file(n, b"keep").unwrap();
    let data = vec![1u8; 513];
    assert_eq!(fs.write_file(n, &data), Err(FsError::DataTooLarge));
    assert_eq!(fs.inodes[n as usize].size, 4);
    let block = fs.read_file(n).unwrap();
    assert_eq!(&block[..4], b"keep");
    assert!(block[4..].iter().all(|x| *x == 0));
}

#[test]
fn write_to_free_inode_is_not_a_file() {
    let mut fs = hello_fs();
    assert_eq!(fs.write_file(5, b"x"), Err(FsError::NotAFile));
    fs.create_file("f").unwrap();
    assert_eq!(fs.write_file(1, b"x"), Err(FsError::NotAFile));
}

#[test]
fn write_out_of_range_is_invalid_handle() {
    let mut fs = hello_fs();
    assert_eq!(fs.write_file(100, b"x"), Err(FsError::InvalidHandle));
    assert_eq!(fs.write_file(u32::MAX, b"x"), Err(FsError::InvalidHandle));
}

#[test]
fn read_free_or_out_of_range_is_none() {
    let mut fs = hello_fs();
    assert!(fs.read_file(0).is_none());
    assert!(fs.read_file(100).is_none());
    fs.create_file("f").unwrap();
    assert!(fs.read_file(0).is_some());
    assert!(fs.read_file(1).is_none());
}

#[test]
fn create_fails_once_capacity_used() {
    let mut fs = FileSystem::new(1024 * 1024, 512, 3);
    assert_eq!(fs.create_file("a"), Ok(0));
    assert_eq!(fs.create_file("b"), Ok(1));
    assert_eq!(fs.create_file("c"), Ok(2));
    assert_eq!(fs.superblock.free_inode_count, 0);
    assert_eq!(fs.create_file("d"), Err(FsError::NoFreeInode));
    assert_eq!(fs.list_files().len(), 3);
}

#[test]
fn zero_capacity_refuses_first_creation() {
    let mut fs = FileSystem::new(1024, 512, 0);
    assert_eq!(fs.create_file("a"), Err(FsError::NoFreeInode));
    assert!(fs.list_files().is_empty());
}

#[test]
fn create_fails_when_blocks_run_out() {
    let mut fs = FileSystem::new(1024, 512, 10);
    assert_eq!(fs.superblock.free_block_count, 2);
    assert_eq!(fs.create_file("a"), Ok(0));
    assert_eq!(fs.create_file("b"), Ok(1));
    assert_eq!(fs.create_file("c"), Err(FsError::NoFreeBlock));
    assert_eq!(fs.superblock.free_inode_count, 8);
    assert_eq!(fs.superblock.free_block_count, 0);
    assert_eq!(fs.list_files().len(), 2);
    assert!(fs.read_file(2).is_none());
}

#[test]
fn block_count_truncates() {
    let fs = FileSystem::new(1000, 512, 1);
    assert_eq!(fs.superblock.free_block_count, 1);
    assert_eq!(fs.data_blocks.len(), 1);
}

#[test]
fn writing_same_data_twice_is_idempotent() {
    let mut fs = hello_fs();
    let n = fs.create_file("f").unwrap();
    fs.write_file(n, b"same").unwrap();
    let first = fs.read_file(n).unwrap().to_vec();
    fs.write_file(n, b"same").unwrap();
    assert_eq!(fs.read_file(n).unwrap(), &first[..]);
    assert_eq!(fs.inodes[n as usize].size, 4);
}

#[test]
fn files_do_not_share_blocks() {
    let mut fs = hello_fs();
    let a = fs.create_file("a").unwrap();
    let b = fs.create_file("b").unwrap();
    fs.write_file(a, b"first").unwrap();
    assert!(fs.read_file(b).unwrap().iter().all(|x| *x == 0));
    fs.write_file(b, b"second").unwrap();
    assert_eq!(&fs.read_file(a).unwrap()[..5], b"first");
}

#[test]
fn list_files_in_creation_order() {
    let mut fs = hello_fs();
    fs.create_file("one").unwrap();
    fs.create_file("two").unwrap();
    fs.create_file("one").unwrap();
    assert_eq!(
        fs.list_files(),
        vec![("one".to_string(), 0u32), ("two".to_string(), 1u32), ("one".to_string(), 2u32)]
    );
}

#[test]
fn long_ascii_name_is_truncated_to_buffer() {
    let mut fs = hello_fs();
    let name = "abcdefghijklmnopqrstuvwxyz0123456789";
    fs.create_file(name).unwrap();
    assert_eq!(fs.dirents[0].name_len, 32);
    assert_eq!(fs.list_files()[0].0, "abcdefghijklmnopqrstuvwxyz012345");
}

#[test]
fn multibyte_name_is_truncated_on_char_boundary() {
    let mut fs = hello_fs();
    let name = format!("a{}", "é".repeat(16));
    assert_eq!(name.len(), 33);
    fs.create_file(&name).unwrap();
    assert_eq!(fs.dirents[0].name_len, 31);
    assert_eq!(fs.dirents[0].name[31], 0);
    assert_eq!(fs.list_files()[0].0, format!("a{}", "é".repeat(15)));
}

#[test]
fn empty_name_is_kept_empty() {
    let mut fs = hello_fs();
    fs.create_file("").unwrap();
    assert_eq!(fs.list_files(), vec![(String::new(), 0u32)]);
}

#[test]
fn decode_name_accepts_utf8_and_rejects_other_bytes() {
    assert_eq!(decode_name("héllo".as_bytes()), "héllo");
    assert_eq!(decode_name(&[0x68, 0x69]), "hi");
    assert_eq!(decode_name(&[0xff, 0x41]), "");
    assert_eq!(decode_name(&[0xc3]), "");
    assert_eq!(decode_name(&[]), "");
}

#[test]
fn list_files_degrades_bad_names_to_empty() {
    let mut fs = hello_fs();
    fs.create_file("ok").unwrap();
    fs.dirents[0].name[0] = 0xff;
    assert_eq!(fs.list_files(), vec![(String::new(), 0u32)]);
}

#[test]
fn u32_to_string_renders_decimal() {
    assert_eq!(u32_to_string(0), "0");
    assert_eq!(u32_to_string(7), "7");
    assert_eq!(u32_to_string(10), "10");
    assert_eq!(u32_to_string(1234), "1234");
    assert_eq!(u32_to_string(u32::MAX), "4294967295");
}
