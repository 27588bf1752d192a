//! Reading and neutralizing the table directory of an sfnt font binary.
//!
//! fontdue decodes the font's name strings right after parsing, and its
//! UTF-16 reader indexes past the end of a name record whose length is odd
//! or that ends in an unpaired surrogate — a process abort on attacker-shaped
//! bytes.  The cache core never reads font names, so before bytes reach
//! fontdue their "name" table records are retagged: the table data stays in
//! place, but under a tag the face parser does not recognize, it is never
//! decoded.  Everything here works on plain bytes and is verified; the spec
//! functions mirror, check for check, how the face parser locates the table
//! records of the selected sub-font.

use vstd::prelude::*;

verus! {

/// The big-endian 16-bit integer at offset `i`.
pub open spec fn spec_be_u16(s: Seq<u8>, i: int) -> int {
    (s[i] as int) * 0x100 + (s[i + 1] as int)
}

/// The big-endian 32-bit integer at offset `i`.
pub open spec fn spec_be_u32(s: Seq<u8>, i: int) -> int {
    (s[i] as int) * 0x1000000 + (s[i + 1] as int) * 0x10000 + (s[i + 2] as int) * 0x100 + (s[i
        + 3] as int)
}

/// The magic numbers under which the face parser accepts a single face:
/// TrueType (two spellings) and OpenType.
pub open spec fn is_face_magic(m: int) -> bool {
    m == 0x00010000 || m == 0x74727565 || m == 0x4F54544F
}

/// The absolute offset of the table directory that the face parser reads
/// for sub-font `index`, or -1 when it rejects the bytes before reading
/// any table record.  A collection (magic "ttcf") holds a directory per
/// face at an offset taken from its header; anything else is a single face
/// with its directory at offset 0.
pub open spec fn spec_dir_offset(s: Seq<u8>, index: u32) -> int {
    if s.len() < 4 {
        -1
    } else if spec_be_u32(s, 0) == 0x74746366 {
        if s.len() < 12 {
            -1
        } else {
            let n = spec_be_u32(s, 8);
            if s.len() < 12 + 4 * n {
                -1
            } else if index >= n {
                -1
            } else {
                let off = spec_be_u32(s, 12 + 4 * index);
                if off < 12 + 4 * n {
                    -1
                } else if off + 4 > s.len() {
                    -1
                } else if !is_face_magic(spec_be_u32(s, off)) {
                    -1
                } else {
                    off
                }
            }
        }
    } else if is_face_magic(spec_be_u32(s, 0)) {
        if index != 0 {
            -1
        } else {
            0
        }
    } else {
        -1
    }
}

/// The number of table records the directory declares (meaningful when
/// `spec_records_offset` is not -1).
pub open spec fn spec_record_count(s: Seq<u8>, index: u32) -> int {
    spec_be_u16(s, spec_dir_offset(s, index) + 4)
}

/// The absolute offset of the table records of sub-font `index`, or -1
/// when the face parser fails before reading them (it reads all records
/// at once and rejects the bytes when they do not fit).
pub open spec fn spec_records_offset(s: Seq<u8>, index: u32) -> int {
    let dir = spec_dir_offset(s, index);
    if dir < 0 {
        -1
    } else if dir + 6 > s.len() {
        -1
    } else if dir + 12 + 16 * spec_record_count(s, index) > s.len() {
        -1
    } else {
        dir + 12
    }
}

/// Whether record `j` of the record array at `ro` carries the tag "name".
pub open spec fn spec_name_record(s: Seq<u8>, ro: int, j: int) -> bool {
    &&& s[ro + 16 * j] == 0x6e
    &&& s[ro + 16 * j + 1] == 0x61
    &&& s[ro + 16 * j + 2] == 0x6d
    &&& s[ro + 16 * j + 3] == 0x65
}

/// Whether byte `i` is the final tag byte of a "name" record among the
/// first `j` records of sub-font `index`.
pub open spec fn spec_patched_upto(s: Seq<u8>, index: u32, i: int, j: int) -> bool {
    let ro = spec_records_offset(s, index);
    &&& ro >= 0
    &&& exists|jp: int|
        0 <= jp < j && jp < spec_record_count(s, index) && spec_name_record(s, ro, jp) && i == ro
            + 16 * jp + 3
}

/// Whether byte `i` is the final tag byte of any "name" record of
/// sub-font `index`.
pub open spec fn spec_patched(s: Seq<u8>, index: u32, i: int) -> bool {
    spec_patched_upto(s, index, i, spec_record_count(s, index))
}

/// `s` with the final tag byte of every "name" record of sub-font `index`
/// overwritten, so that no record reads "name" any more.
pub open spec fn spec_neutralize(s: Seq<u8>, index: u32) -> Seq<u8> {
    Seq::new(s.len(), |i: int| if spec_patched(s, index, i) { 0x78 } else { s[i] })
}

/// No table record of sub-font `index` carries the tag "name": the face
/// parser then hands the font's consumer no name strings at all.
pub open spec fn name_table_neutralized(s: Seq<u8>, index: u32) -> bool {
    spec_records_offset(s, index) >= 0 ==> forall|j: int|
        0 <= j < spec_record_count(s, index) ==> !spec_name_record(
            s,
            spec_records_offset(s, index),
            j,
        )
}

fn read_be_u16(data: &Vec<u8>, i: usize) -> (r: u16)
    requires
        i + 2 <= data.len(),
    ensures
        r == spec_be_u16(data@, i as int),
{
    (data[i] as u16) * 0x100 + (data[i + 1] as u16)
}

fn read_be_u32(data: &Vec<u8>, i: usize) -> (r: u32)
    requires
        i + 4 <= data.len(),
    ensures
        r == spec_be_u32(data@, i as int),
{
    (data[i] as u32) * 0x1000000 + (data[i + 1] as u32) * 0x10000 + (data[i + 2] as u32) * 0x100 + (
    data[i + 3] as u32)
}

/// Locates the table records of sub-font `index` exactly as the face
/// parser does: their offset and their count, or `None` when the face
/// parser rejects the bytes before reading them.
fn locate_records(data: &Vec<u8>, index: u32) -> (r: Option<(usize, u16)>)
    ensures
        match r {
            Some(rc) => spec_records_offset(data@, index) == rc.0 && spec_record_count(
                data@,
                index,
            ) == rc.1,
            None => spec_records_offset(data@, index) < 0,
        },
{
    let len = data.len();
    if len < 4 {
        return None;
    }
    let magic = read_be_u32(data, 0);
    let dir: usize;
    if magic == 0x74746366u32 {
        if len < 12 {
            return None;
        }
        let n = read_be_u32(data, 8);
        if (len as u64) < 12u64 + 4u64 * (n as u64) {
            return None;
        }
        if index >= n {
            return None;
        }
        let pos: usize = 12 + 4 * (index as usize);
        let off32 = read_be_u32(data, pos);
        if (off32 as u64) < 12u64 + 4u64 * (n as u64) {
            return None;
        }
        if (off32 as u64) + 4u64 > len as u64 {
            return None;
        }
        let off = off32 as usize;
        let face_magic = read_be_u32(data, off);
        if !(face_magic == 0x00010000u32 || face_magic == 0x74727565u32 || face_magic
            == 0x4F54544Fu32) {
            return None;
        }
        dir = off;
    } else if magic == 0x00010000u32 || magic == 0x74727565u32 || magic == 0x4F54544Fu32 {
        if index != 0 {
            return None;
        }
        dir = 0;
    } else {
        return None;
    }
    if (dir as u64) + 6u64 > len as u64 {
        return None;
    }
    let cnt = read_be_u16(data, dir + 4);
    if (dir as u64) + 12u64 + 16u64 * (cnt as u64) > len as u64 {
        return None;
    }
    Some((dir + 12, cnt))
}

/// Returns `data` with the final tag byte of every "name" record of
/// sub-font `index` overwritten (the tag then reads "namx", which keeps
/// the record array sorted but is recognized by nobody).  Bytes the face
/// parser rejects come back unchanged; it rejects them again afterwards.
pub fn neutralize_name_tables(data: &Vec<u8>, index: u32) -> (r: Vec<u8>)
    ensures
        r@ == spec_neutralize(data@, index),
        name_table_neutralized(r@, index),
{
    let n = data.len();
    let mut out: Vec<u8> = Vec::new();
    let mut i: usize = 0;
    while i < n
        invariant
            i <= n,
            n == data@.len(),
            out@.len() == i,
            forall|k: int| 0 <= k < i ==> out@[k] == data@[k],
        decreases n - i,
    {
        out.push(data[i]);
        i = i + 1;
    }
    match locate_records(data, index) {
        None => {
            proof {
                assert(out@ =~= spec_neutralize(data@, index));
                lemma_neutralize_safe(data@, index);
            }
            out
        },
        Some((ro, cnt)) => {
            proof {
                assert(spec_records_offset(data@, index) == ro);
                assert(ro + 16 * cnt <= data@.len());
            }
            let mut j: usize = 0;
            while j < cnt as usize
                invariant
                    j <= cnt,
                    n == data@.len(),
                    out@.len() == n,
                    ro == spec_records_offset(data@, index),
                    cnt == spec_record_count(data@, index),
                    ro + 16 * cnt <= n,
                    forall|k: int|
                        0 <= k < n ==> out@[k] == (if spec_patched_upto(data@, index, k, j as int) {
                            0x78
                        } else {
                            data@[k]
                        }),
                decreases cnt - j,
            {
                let p = ro + 16 * j;
                let ghost prev = out@;
                if data[p] == 0x6e && data[p + 1] == 0x61 && data[p + 2] == 0x6d && data[p + 3]
                    == 0x65 {
                    out[p + 3] = 0x78;
                    proof {
                        assert(spec_name_record(data@, ro as int, j as int));
                        assert forall|k: int| 0 <= k < n implies out@[k] == (if spec_patched_upto(
                            data@,
                            index,
                            k,
                            j + 1,
                        ) {
                            0x78
                        } else {
                            data@[k]
                        }) by {
                            if k == p + 3 {
                                assert(spec_patched_upto(data@, index, k, j + 1));
                            } else {
                                assert(out@[k] == prev[k]);
                                if spec_patched_upto(data@, index, k, j + 1) {
                                    let jp = choose|jp: int|
                                        0 <= jp < j + 1 && jp < cnt && spec_name_record(
                                            data@,
                                            ro as int,
                                            jp,
                                        ) && k == ro + 16 * jp + 3;
                                    assert(jp != j);
                                    assert(spec_patched_upto(data@, index, k, j as int));
                                }
                            }
                        }
                    }
                } else {
                    proof {
                        assert(!spec_name_record(data@, ro as int, j as int));
                        assert forall|k: int| 0 <= k < n implies out@[k] == (if spec_patched_upto(
                            data@,
                            index,
                            k,
                            j + 1,
                        ) {
                            0x78
                        } else {
                            data@[k]
                        }) by {
                            if spec_patched_upto(data@, index, k, j + 1) {
                                let jp = choose|jp: int|
                                    0 <= jp < j + 1 && jp < cnt && spec_name_record(
                                        data@,
                                        ro as int,
                                        jp,
                                    ) && k == ro + 16 * jp + 3;
                                assert(jp != j);
                                assert(spec_patched_upto(data@, index, k, j as int));
                            }
                        }
                    }
                }
                j = j + 1;
            }
            proof {
                assert(out@ =~= spec_neutralize(data@, index));
                lemma_neutralize_safe(data@, index);
            }
            out
        },
    }
}

/// The first three bytes of a record's tag are never patched positions:
/// a patched position sits sixteen times a record index plus three past
/// the record array.
proof fn lemma_unpatched_tag_byte(s: Seq<u8>, index: u32, j: int, b: int)
    requires
        0 <= b < 3,
        spec_records_offset(s, index) >= 0,
    ensures
        !spec_patched(s, index, spec_records_offset(s, index) + 16 * j + b),
{
    let ro = spec_records_offset(s, index);
    let cnt = spec_record_count(s, index);
    if spec_patched(s, index, ro + 16 * j + b) {
        let jp = choose|jp: int|
            0 <= jp < cnt && jp < cnt && spec_name_record(s, ro, jp) && ro + 16 * j + b == ro + 16
                * jp + 3;
        assert(16 * j + b == 16 * jp + 3);
        assert(false) by (nonlinear_arith)
            requires
                16 * j + b == 16 * jp + 3,
                0 <= b < 3,
        ;
    }
}

/// Every byte the directory walk reads lies before the record tags, so
/// retagging the "name" records changes neither where the records are nor
/// how many there are — it only makes every record's tag differ from
/// "name".
pub proof fn lemma_neutralize_safe(s: Seq<u8>, index: u32)
    ensures
        spec_neutralize(s, index).len() == s.len(),
        name_table_neutralized(spec_neutralize(s, index), index),
{
    let t = spec_neutralize(s, index);
    let ro = spec_records_offset(s, index);
    if ro < 0 {
        assert(t =~= s);
    } else {
        let dir = spec_dir_offset(s, index);
        let cnt = spec_record_count(s, index);
        assert(ro == dir + 12);
        // Every patched position is a record tag byte, past the header.
        assert forall|q: int| 0 <= q < s.len() && q < dir + 12 implies t[q] == s[q] by {
            if spec_patched(s, index, q) {
                let jp = choose|jp: int|
                    0 <= jp < cnt && jp < cnt && spec_name_record(s, ro, jp) && q == ro + 16 * jp
                        + 3;
                assert(q >= ro + 3);
            }
        }
        // The directory walk reads only below the records: same directory.
        assert(spec_be_u32(t, 0) == spec_be_u32(s, 0));
        if spec_be_u32(s, 0) == 0x74746366 {
            let nf = spec_be_u32(s, 8);
            assert(spec_be_u32(t, 8) == nf);
            assert(12 + 4 * index + 4 <= 12 + 4 * nf);
            assert(12 + 4 * nf <= dir);
            assert(spec_be_u32(t, 12 + 4 * index) == spec_be_u32(s, 12 + 4 * index));
            assert(spec_be_u32(t, dir) == spec_be_u32(s, dir));
        }
        assert(spec_dir_offset(t, index) == dir);
        assert(spec_be_u16(t, dir + 4) == spec_be_u16(s, dir + 4));
        assert(spec_record_count(t, index) == cnt);
        assert(spec_records_offset(t, index) == ro);
        // In the patched bytes no record reads "name" any more.
        assert forall|j: int| 0 <= j < cnt implies !spec_name_record(t, ro, j) by {
            lemma_unpatched_tag_byte(s, index, j, 0);
            lemma_unpatched_tag_byte(s, index, j, 1);
            lemma_unpatched_tag_byte(s, index, j, 2);
            assert(t[ro + 16 * j] == s[ro + 16 * j]);
            assert(t[ro + 16 * j + 1] == s[ro + 16 * j + 1]);
            assert(t[ro + 16 * j + 2] == s[ro + 16 * j + 2]);
            if spec_name_record(s, ro, j) {
                assert(spec_patched(s, index, ro + 16 * j + 3));
                assert(t[ro + 16 * j + 3] == 0x78);
            } else {
                if spec_patched(s, index, ro + 16 * j + 3) {
                    let jp = choose|jp: int|
                        0 <= jp < cnt && jp < cnt && spec_name_record(s, ro, jp) && ro + 16 * j + 3
                            == ro + 16 * jp + 3;
                    assert(jp == j);
                }
                assert(t[ro + 16 * j + 3] == s[ro + 16 * j + 3]);
            }
        }
    }
}

} // verus!
