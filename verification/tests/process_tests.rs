use lib::args::{decode_arg_table, plan_args, ArgSpan, ArgsError};
use lib::bytes::write_u32_le;
use lib::error::IoError;
use lib::heap::{decide_alloc, AllocDecision, HEAP_SIZE};
use lib::stdio::{
    complete_fd_write, fd_write_request, is_ebadf, panic_output, write_vectored_step, Stdin,
    Stdout, FD_STDOUT, STDIN_BUF_SIZE,
};

fn table(entries: &[(u32, u32)]) -> Vec<u8> {
    let mut t = vec![0u8; entries.len() * 8];
    for (i, (addr, len)) in entries.iter().enumerate() {
        write_u32_le(&mut t, i * 8, *addr);
        write_u32_le(&mut t, i * 8 + 4, *len);
    }
    t
}

#[test]
fn arg_count_checks() {
    assert_eq!(plan_args(-1, false), Err(ArgsError::InvalidArgc));
    assert_eq!(plan_args(5, false), Err(ArgsError::InvalidArgc));
    assert_eq!(plan_args(0, true), Ok(0));
    assert_eq!(plan_args(2, true), Err(ArgsError::InvalidTable));
    assert_eq!(plan_args(4, false), Ok(4));
}

#[test]
fn arg_table_entries() {
    let t = table(&[(0x2000, 3), (0, 0), (0x3000, 1)]);
    assert_eq!(
        decode_arg_table(&t, 3),
        Ok(vec![
            ArgSpan { addr: 0x2000, len: 3 },
            ArgSpan { addr: 0, len: 0 },
            ArgSpan { addr: 0x3000, len: 1 },
        ])
    );
    assert_eq!(decode_arg_table(&[], 0), Ok(Vec::new()));
}

#[test]
fn arg_table_null_entry_refused() {
    let t = table(&[(0x2000, 3), (0, 2)]);
    assert_eq!(decode_arg_table(&t, 2), Err(ArgsError::InvalidEntry));
}

#[test]
fn arg_error_messages() {
    assert_eq!(ArgsError::InvalidArgc.message(), "invalid KraftOS argc");
    assert_eq!(ArgsError::InvalidTable.message(), "invalid KraftOS argv table");
    assert_eq!(ArgsError::InvalidEntry.message(), "invalid KraftOS argv entry");
}

#[test]
fn zero_sized_allocation() {
    assert_eq!(decide_alloc(0, 0, 0, 8), AllocDecision::ZeroSized);
    assert_eq!(decide_alloc(0, 100, 0, 1), AllocDecision::ZeroSized);
}

#[test]
fn allocation_is_aligned_after_next() {
    assert_eq!(decide_alloc(0, 0, 10, 8), AllocDecision::Reserve { start: 0, next: 10 });
    assert_eq!(decide_alloc(0, 3, 10, 8), AllocDecision::Reserve { start: 8, next: 18 });
    assert_eq!(decide_alloc(0, 100, 10, 16), AllocDecision::Reserve { start: 112, next: 122 });
    assert_eq!(decide_alloc(0, 112, 1, 16), AllocDecision::Reserve { start: 112, next: 113 });
}

#[test]
fn consecutive_allocations_do_not_overlap() {
    let AllocDecision::Reserve { start: s1, next: n1 } = decide_alloc(0, 5, 7, 4) else {
        panic!("first allocation refused")
    };
    let AllocDecision::Reserve { start: s2, next: n2 } = decide_alloc(0, n1, 3, 8) else {
        panic!("second allocation refused")
    };
    assert_eq!((s1, n1, s2, n2), (8, 15, 16, 19));
    assert!(n1 <= s2);
}

#[test]
fn allocation_aligns_the_address() {
    assert_eq!(decide_alloc(3, 0, 4, 8), AllocDecision::Reserve { start: 5, next: 9 });
    assert_eq!(decide_alloc(0x1001, 7, 4, 16), AllocDecision::Reserve { start: 15, next: 19 });
    assert_eq!(decide_alloc(0x1000, 3, 10, 8), AllocDecision::Reserve { start: 8, next: 18 });
    assert_eq!(decide_alloc(1, HEAP_SIZE - 2, 2, 4), AllocDecision::Exhausted);
}

#[test]
fn zero_sized_allocation_for_any_alignment() {
    assert_eq!(decide_alloc(0x9000_0000, 0, 0, 0x8000_0000), AllocDecision::ZeroSized);
    assert_eq!(decide_alloc(usize::MAX, usize::MAX, 0, usize::MAX), AllocDecision::ZeroSized);
}

#[test]
fn allocation_past_the_address_space_is_exhausted() {
    assert_eq!(decide_alloc(usize::MAX - 3, 1, 1, 8), AllocDecision::Exhausted);
    assert_eq!(decide_alloc(usize::MAX, 1, 1, 1), AllocDecision::Exhausted);
    assert_eq!(decide_alloc(0x8000_0000, 1, 1, 0x8000_0000), AllocDecision::Exhausted);
}

#[test]
fn allocation_beyond_heap_is_exhausted() {
    assert_eq!(decide_alloc(0, 0, HEAP_SIZE, 1), AllocDecision::Reserve { start: 0, next: HEAP_SIZE });
    assert_eq!(decide_alloc(0, 0, HEAP_SIZE + 1, 1), AllocDecision::Exhausted);
    assert_eq!(decide_alloc(0, HEAP_SIZE - 4, 8, 1), AllocDecision::Exhausted);
    assert_eq!(decide_alloc(0, HEAP_SIZE - 4, 4, 8), AllocDecision::Exhausted);
    assert_eq!(decide_alloc(0, HEAP_SIZE, 1, 1), AllocDecision::Exhausted);
    assert_eq!(decide_alloc(0, 0, usize::MAX, 1), AllocDecision::Exhausted);
}

#[test]
fn stdin_is_always_empty() {
    let mut s = Stdin::new();
    let mut buf = [7u8; 4];
    assert_eq!(s.read(&mut buf), Ok(0));
    assert_eq!(buf, [7u8; 4]);
    let mut bufs = vec![vec![1u8, 2], vec![3u8]];
    assert_eq!(s.read_vectored(&mut bufs), Ok(0));
    assert!(!s.is_read_vectored());
    let mut v = vec![1u8];
    assert_eq!(s.read_to_end(&mut v), Ok(0));
    assert_eq!(v, vec![1u8]);
    let mut st = String::from("x");
    assert_eq!(s.read_to_string(&mut st), Ok(0));
    assert_eq!(st, "x");
    assert_eq!(STDIN_BUF_SIZE, 0);
}

#[test]
fn stdin_read_exact_fails_unless_empty() {
    let mut s = Stdin::new();
    let mut empty: [u8; 0] = [];
    assert_eq!(s.read_exact(&mut empty), Ok(()));
    let mut one = [0u8; 1];
    assert_eq!(s.read_exact(&mut one), Err(IoError::ReadExactEof));
    assert_eq!(s.read_buf_exact(0), Ok(()));
    assert_eq!(s.read_buf_exact(3), Err(IoError::ReadExactEof));
}

#[test]
fn stdout_writes_whole_buffers() {
    let mut out = Stdout::new();
    assert_eq!(out.fd(), FD_STDOUT);
    assert!(out.is_write_vectored());
    assert_eq!(out.flush(), Ok(()));
    assert_eq!(fd_write_request(0), Ok(None));
    assert_eq!(fd_write_request(12), Ok(Some(12)));
    assert_eq!(complete_fd_write(12, 12), Ok(12));
    assert_eq!(complete_fd_write(12, 5), Err(IoError::WriteAllEof));
    assert_eq!(complete_fd_write(12, 0x8000_0000), Err(IoError::UnsupportedPlatform));
}

#[test]
fn stdio_misc() {
    assert!(!is_ebadf(&IoError::UnsupportedPlatform));
    assert_eq!(panic_output(), None);
}

#[test]
fn vectored_write_sums_until_first_failure() {
    assert_eq!(write_vectored_step(0, Ok(3)), Ok(3));
    assert_eq!(write_vectored_step(3, Ok(4)), Ok(7));
    assert_eq!(write_vectored_step(7, Err(IoError::WriteAllEof)), Err(IoError::WriteAllEof));
    assert_eq!(
        write_vectored_step(7, Err(IoError::UnsupportedPlatform)),
        Err(IoError::UnsupportedPlatform)
    );
}
