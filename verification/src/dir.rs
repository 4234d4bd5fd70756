use vstd::prelude::*;

use crate::attr::{check_path, MAX_READ_DIR_PATH_BYTES};
use crate::bytes::{le_bytes, le_u32_at, write_u32_le};
use crate::error::{status_failed, syscall_failed, IoError};

verus! {

/// Magic word that opens a directory-listing request ("RIDR").
pub const READ_DIR_REQUEST_MAGIC: u32 = 0x5249_4452;

/// Length of the header of a directory-listing request.
pub const READ_DIR_HEADER_BYTES: usize = 16;

/// Size of the buffer that the kernel writes a directory listing into.
pub const READ_DIR_BOUNCE_SIZE: usize = 4096;

/// The byte that ends each name in a directory listing.
pub const NEWLINE: u8 = 10;

/// The path separator.
pub const SEPARATOR: u8 = 47;

/// Appends `src[from..to]` to `out`.
pub(crate) fn append_bytes(out: &mut Vec<u8>, src: &[u8], from: usize, to: usize)
    requires
        from <= to <= src@.len(),
    ensures
        final(out)@ == old(out)@ + src@.subrange(from as int, to as int),
{
    let mut i = from;
    while i < to
        invariant
            from <= i <= to <= src@.len(),
            out@ == old(out)@ + src@.subrange(from as int, i as int),
        decreases to - i,
    {
        out.push(src[i]);
        assert(src@.subrange(from as int, i + 1) =~= src@.subrange(from as int, i as int).push(
            src@[i as int],
        ));
        i = i + 1;
    }
}

/// The directory-listing request for `path`, whose listing the kernel is to
/// write at address `out_addr`: four little-endian words (magic, path
/// length, buffer address, buffer size) and then the path.
pub open spec fn read_dir_request_bytes(path: Seq<u8>, out_addr: u32) -> Seq<u8> {
    le_bytes(READ_DIR_REQUEST_MAGIC) + le_bytes(path.len() as u32) + le_bytes(out_addr)
        + le_bytes(READ_DIR_BOUNCE_SIZE as u32) + path
}

/// Builds the directory-listing request for `path`; paths that are empty or
/// longer than `MAX_READ_DIR_PATH_BYTES` are refused.
pub fn read_dir_request(path: &[u8], out_addr: u32) -> (r: Result<Vec<u8>, IoError>)
    ensures
        (path@.len() == 0 || path@.len() > MAX_READ_DIR_PATH_BYTES) ==> r == Err::<
            Vec<u8>,
            IoError,
        >(IoError::UnsupportedPlatform),
        (0 < path@.len() <= MAX_READ_DIR_PATH_BYTES) ==> r is Ok && r->Ok_0@
            == read_dir_request_bytes(path@, out_addr),
{
    let path_len = check_path(path)?;
    let mut request: Vec<u8> = vec![0u8; READ_DIR_HEADER_BYTES];
    write_u32_le(request.as_mut_slice(), 0, READ_DIR_REQUEST_MAGIC);
    write_u32_le(request.as_mut_slice(), 4, path_len);
    write_u32_le(request.as_mut_slice(), 8, out_addr);
    write_u32_le(request.as_mut_slice(), 12, READ_DIR_BOUNCE_SIZE as u32);
    let ghost header = request@;
    assert(header =~= le_bytes(READ_DIR_REQUEST_MAGIC) + le_bytes(path@.len() as u32) + le_bytes(
        out_addr,
    ) + le_bytes(READ_DIR_BOUNCE_SIZE as u32));
    append_bytes(&mut request, path, 0, path.len());
    assert(path@.subrange(0, path@.len() as int) =~= path@);
    Ok(request)
}

/// The request built for a path names the path, its length, the listing
/// buffer and its size at the offsets where the kernel reads them.
pub proof fn lemma_read_dir_request_layout(path: Seq<u8>, out_addr: u32)
    requires
        0 < path.len() <= MAX_READ_DIR_PATH_BYTES,
    ensures
        ({
            let req = read_dir_request_bytes(path, out_addr);
            &&& req.len() == READ_DIR_HEADER_BYTES + path.len()
            &&& le_u32_at(req, 0) == READ_DIR_REQUEST_MAGIC
            &&& le_u32_at(req, 4) == path.len()
            &&& le_u32_at(req, 8) == out_addr
            &&& le_u32_at(req, 12) == READ_DIR_BOUNCE_SIZE
            &&& req.subrange(16, req.len() as int) == path
        }),
{
    let req = read_dir_request_bytes(path, out_addr);
    lemma_le_bytes_value(READ_DIR_REQUEST_MAGIC);
    lemma_le_bytes_value(path.len() as u32);
    lemma_le_bytes_value(out_addr);
    lemma_le_bytes_value(READ_DIR_BOUNCE_SIZE as u32);
    assert(req.subrange(16, req.len() as int) =~= path);
}

/// The four little-endian bytes of a word read back as that word.
pub proof fn lemma_le_bytes_value(v: u32)
    ensures
        le_u32_at(le_bytes(v), 0) == v,
        le_bytes(v).len() == 4,
{
}

/// The length of a directory listing that a listing call returning `status`
/// wrote, or the error.
pub open spec fn read_dir_reply(status: u32) -> Result<usize, IoError> {
    if status_failed(status) || status > READ_DIR_BOUNCE_SIZE {
        Err(IoError::UnsupportedPlatform)
    } else {
        Ok(status as usize)
    }
}

/// Finishes a directory-listing call that returned `status`: the number of
/// listing bytes it wrote.
pub fn complete_read_dir(status: u32) -> (r: Result<usize, IoError>)
    ensures
        r == read_dir_reply(status),
{
    if syscall_failed(status) {
        return Err(IoError::UnsupportedPlatform);
    }
    let read = status as usize;
    if read > READ_DIR_BOUNCE_SIZE {
        return Err(IoError::UnsupportedPlatform);
    }
    Ok(read)
}

/// Number of bytes before the first newline of `t` (all of `t` if it has
/// none).
pub open spec fn first_newline(t: Seq<u8>) -> nat
    decreases t.len(),
{
    if t.len() == 0 {
        0
    } else if t[0] == NEWLINE {
        0
    } else {
        1 + first_newline(t.drop_first())
    }
}

/// The first newline of `t` stands at `first_newline(t)`, or `t` has none.
pub proof fn lemma_first_newline(t: Seq<u8>)
    ensures
        first_newline(t) <= t.len(),
        forall|j: int| 0 <= j < first_newline(t) ==> t[j] != NEWLINE,
        first_newline(t) < t.len() ==> t[first_newline(t) as int] == NEWLINE,
    decreases t.len(),
{
    if t.len() > 0 && t[0] != NEWLINE {
        lemma_first_newline(t.drop_first());
        assert forall|j: int| 0 <= j < first_newline(t) implies t[j] != NEWLINE by {
            if j > 0 {
                assert(t[j] == t.drop_first()[j - 1]);
            }
        }
    }
}

/// The names of a directory listing: each name ends at a newline, the last
/// one may end at the end of the listing instead, and no name is empty.
/// `None` where the listing breaks that form.
pub open spec fn listing_names(t: Seq<u8>) -> Option<Seq<Seq<u8>>>
    decreases t.len(),
{
    if t.len() == 0 {
        Some(Seq::empty())
    } else {
        let e = first_newline(t);
        if e == 0 {
            None
        } else {
            proof {
                lemma_first_newline(t);
            }
            let rest = if e < t.len() {
                t.subrange(e + 1 as int, t.len() as int)
            } else {
                Seq::empty()
            };
            match listing_names(rest) {
                Some(names) => Some(seq![t.subrange(0, e as int)] + names),
                None => None,
            }
        }
    }
}

/// The end of the name that starts at `start` in `listing`: the offset of
/// the next newline, or the end of the listing.
pub fn line_end(listing: &[u8], start: usize) -> (e: usize)
    requires
        start <= listing@.len(),
    ensures
        e == start + first_newline(listing@.subrange(start as int, listing@.len() as int)),
        e <= listing@.len(),
{
    let ghost s = listing@;
    let len = listing.len();
    let ghost t = s.subrange(start as int, len as int);
    proof {
        lemma_first_newline(t);
    }
    let mut cursor = start;
    while cursor < len && listing[cursor] != NEWLINE
        invariant
            len == s.len(),
            s == listing@,
            start <= cursor <= len,
            t == s.subrange(start as int, len as int),
            cursor - start <= first_newline(t),
            forall|j: int| 0 <= j < first_newline(t) ==> t[j] != NEWLINE,
            first_newline(t) < t.len() ==> t[first_newline(t) as int] == NEWLINE,
            first_newline(t) <= t.len(),
        decreases len - cursor,
    {
        assert(t[cursor - start] == s[cursor as int]);
        cursor = cursor + 1;
    }
    assert(cursor - start == first_newline(t)) by {
        if cursor < len {
            assert(t[cursor - start] == s[cursor as int]);
        }
    }
    cursor
}

/// A name that a directory listing can carry: not empty, and free of
/// newlines.
pub open spec fn is_listing_name(name: Seq<u8>) -> bool {
    name.len() > 0 && forall|i: int| 0 <= i < name.len() ==> name[i] != NEWLINE
}

/// The listing that names `names`: the names with a newline between each two.
pub open spec fn join_names(names: Seq<Seq<u8>>) -> Seq<u8>
    decreases names.len(),
{
    if names.len() == 0 {
        Seq::empty()
    } else if names.len() == 1 {
        names[0]
    } else {
        names[0] + seq![NEWLINE] + join_names(names.drop_first())
    }
}

/// A run of bytes without a newline moves the first newline by its length.
proof fn lemma_first_newline_after(a: Seq<u8>, b: Seq<u8>)
    requires
        forall|i: int| 0 <= i < a.len() ==> a[i] != NEWLINE,
    ensures
        first_newline(a + b) == a.len() + first_newline(b),
    decreases a.len(),
{
    if a.len() > 0 {
        assert((a + b).drop_first() =~= a.drop_first() + b);
        lemma_first_newline_after(a.drop_first(), b);
    } else {
        assert(a + b =~= b);
    }
}

/// Splitting the listing that joins well-formed names gives those names
/// back, whether or not the listing ends with a newline.
pub proof fn lemma_listing_round_trip(names: Seq<Seq<u8>>)
    requires
        forall|i: int| 0 <= i < names.len() ==> is_listing_name(#[trigger] names[i]),
    ensures
        listing_names(join_names(names)) == Some(names),
        names.len() > 0 ==> listing_names(join_names(names) + seq![NEWLINE]) == Some(names),
    decreases names.len(),
{
    if names.len() == 0 {
        assert(Seq::<Seq<u8>>::empty() =~= names);
    } else {
        let n0 = names[0];
        assert(is_listing_name(names[0]));
        let rest = names.drop_first();
        assert forall|i: int| 0 <= i < rest.len() implies is_listing_name(#[trigger] rest[i]) by {
            assert(rest[i] == names[i + 1]);
        }
        lemma_listing_round_trip(rest);
        let with_nl = join_names(names) + seq![NEWLINE];
        if names.len() == 1 {
            let t = join_names(names);
            lemma_first_newline_after(n0, Seq::empty());
            assert(n0 + Seq::<u8>::empty() =~= n0);
            assert(t.subrange(0, n0.len() as int) =~= n0);
            assert(seq![n0] + Seq::<Seq<u8>>::empty() =~= names);
            lemma_first_newline_after(n0, seq![NEWLINE]);
            assert(with_nl.subrange(0, n0.len() as int) =~= n0);
            assert(with_nl.subrange(n0.len() + 1int, with_nl.len() as int) =~= Seq::<u8>::empty());
        } else {
            let t = join_names(names);
            let tail = join_names(rest);
            assert(t =~= n0 + (seq![NEWLINE] + tail));
            lemma_first_newline_after(n0, seq![NEWLINE] + tail);
            assert(t.subrange(0, n0.len() as int) =~= n0);
            assert(t.subrange(n0.len() + 1int, t.len() as int) =~= tail);
            assert(seq![n0] + rest =~= names);
            assert(with_nl =~= n0 + (seq![NEWLINE] + (tail + seq![NEWLINE])));
            lemma_first_newline_after(n0, seq![NEWLINE] + (tail + seq![NEWLINE]));
            assert(with_nl.subrange(0, n0.len() as int) =~= n0);
            assert(with_nl.subrange(n0.len() + 1int, with_nl.len() as int) =~= tail + seq![NEWLINE]);
        }
    }
}

/// Every split of a listing yields well-formed names, and the listing is
/// those names joined, with or without one final newline.
pub proof fn lemma_listing_names_sound(t: Seq<u8>)
    requires
        listing_names(t) is Some,
    ensures
        ({
            let names = listing_names(t)->Some_0;
            &&& forall|i: int| 0 <= i < names.len() ==> is_listing_name(#[trigger] names[i])
            &&& t == join_names(names) || (names.len() > 0 && t == join_names(names) + seq![
                NEWLINE,
            ])
        }),
    decreases t.len(),
{
    if t.len() > 0 {
        let e = first_newline(t);
        lemma_first_newline(t);
        let rest = if e < t.len() {
            t.subrange(e + 1 as int, t.len() as int)
        } else {
            Seq::empty()
        };
        lemma_listing_names_sound(rest);
        let head = t.subrange(0, e as int);
        let tail_names = listing_names(rest)->Some_0;
        let names = listing_names(t)->Some_0;
        assert(names == seq![head] + tail_names);
        assert(names.drop_first() =~= tail_names);
        assert forall|i: int| 0 <= i < names.len() implies is_listing_name(#[trigger] names[i]) by {
            if i > 0 {
                assert(names[i] == tail_names[i - 1]);
            }
        }
        if e == t.len() {
            assert(rest.len() == 0);
            assert(tail_names.len() == 0);
            assert(head =~= t);
        } else if tail_names.len() == 0 {
            assert(rest =~= Seq::<u8>::empty());
            assert(t =~= head + seq![NEWLINE]);
        } else {
            assert(t =~= head + seq![NEWLINE] + rest);
            assert(join_names(names) == head + seq![NEWLINE] + join_names(tail_names));
            if rest != join_names(tail_names) {
                assert(rest == join_names(tail_names) + seq![NEWLINE]);
                assert(t =~= head + seq![NEWLINE] + join_names(tail_names) + seq![NEWLINE]);
            }
        }
    }
}

/// A listing reply is accepted exactly when the status's top bit is clear
/// and it claims at most 4096 bytes; the listing then has that many bytes.
pub proof fn lemma_read_dir_reply_exact(status: u32)
    ensures
        status < 0x8000_0000u32 && status <= 4096 ==> read_dir_reply(status) == Ok::<
            usize,
            IoError,
        >(status as usize),
        !(status < 0x8000_0000u32 && status <= 4096) ==> read_dir_reply(status) == Err::<
            usize,
            IoError,
        >(IoError::UnsupportedPlatform),
{
}

} // verus!
