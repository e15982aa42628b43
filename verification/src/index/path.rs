use vstd::prelude::*;

use crate::text::{chars_of, push_char, push_text};
use vstd::string::StringSliceAdditionalSpecFns;
use vstd::utf8::{
    decode_utf8, decode_utf8_split, encode_utf8, encode_utf8_decode_utf8, encode_utf8_valid_utf8,
    is_char_boundary, is_char_boundary_iff_not_is_continuation_byte,
    is_char_boundary_start_end_of_seq, valid_utf8, valid_utf8_split,
};

verus! {

/// Appends one component to a path: a component that starts with `/` replaces the path,
/// an empty path becomes the component, and otherwise a single `/` separates them.
pub open spec fn path_join(base: Seq<char>, part: Seq<char>) -> Seq<char> {
    if part.len() > 0 && part[0] == '/' {
        part
    } else if base.len() == 0 {
        part
    } else if base.last() == '/' {
        base + part
    } else {
        base + seq!['/'] + part
    }
}

/// A crate name that the index layout can cut: non-empty, and its UTF-8 bytes cut on
/// character boundaries where the layout cuts them (after the first byte for a name of
/// three bytes, after the second and the fourth for a longer one).
pub open spec fn is_layout_name(name: Seq<char>) -> bool {
    let b = encode_utf8(name);
    &&& b.len() >= 1
    &&& b.len() == 3 ==> is_char_boundary(b, 1)
    &&& b.len() >= 4 ==> is_char_boundary(b, 2) && is_char_boundary(b, 4)
}

/// The directories, under the index root, of the record file of a crate, by the length of
/// its name in UTF-8 bytes: `1` for one byte, `2` for two, `3/<first byte>` for three, and
/// `<first two bytes>/<next two bytes>` otherwise.
pub open spec fn record_dirs(name: Seq<char>) -> Seq<Seq<char>> {
    let b = encode_utf8(name);
    if b.len() == 1 {
        seq![seq!['1']]
    } else if b.len() == 2 {
        seq![seq!['2']]
    } else if b.len() == 3 {
        seq![seq!['3'], decode_utf8(b.subrange(0, 1))]
    } else {
        seq![decode_utf8(b.subrange(0, 2)), decode_utf8(b.subrange(2, 4))]
    }
}

/// The path of a crate's record file under the index root `base`.
pub open spec fn record_path(base: Seq<char>, name: Seq<char>) -> Seq<char> {
    let dirs = record_dirs(name);
    if dirs.len() == 1 {
        path_join(path_join(base, dirs[0]), name)
    } else {
        path_join(path_join(path_join(base, dirs[0]), dirs[1]), name)
    }
}

/// Whether a text ends with `/`.
fn ends_with_slash(s: &str) -> (res: bool)
    ensures
        res == (s@.len() > 0 && s@.last() == '/'),
{
    let chars = chars_of(s);
    chars.len() > 0 && chars[chars.len() - 1] == '/'
}

/// Whether a text starts with `/`.
fn starts_with_slash(s: &str) -> (res: bool)
    ensures
        res == (s@.len() > 0 && s@[0] == '/'),
{
    let chars = chars_of(s);
    chars.len() > 0 && chars[0] == '/'
}

/// Appends one component to a path, as `path_join` says.
pub fn join_path(base: String, part: &str) -> (res: String)
    ensures
        res@ == path_join(base@, part@),
{
    if starts_with_slash(part) || base.as_str().is_empty() {
        return part.to_owned();
    }
    let mut res = base;
    if !ends_with_slash(res.as_str()) {
        push_char(&mut res, '/');
    }
    push_text(&mut res, part);
    res
}

/// The characters of a piece of a text, cut at `from` and `to` in its UTF-8 bytes, on
/// character boundaries.
fn byte_piece(s: &str, from: usize, to: usize) -> (res: &str)
    requires
        from <= to <= s.spec_bytes().len(),
        is_char_boundary(s.spec_bytes(), from as int),
        is_char_boundary(s.spec_bytes(), to as int),
    ensures
        res@ == decode_utf8(s.spec_bytes().subrange(from as int, to as int)),
        valid_utf8(s.spec_bytes().subrange(from as int, to as int)),
{
    let ghost b = s.spec_bytes();
    proof {
        encode_utf8_valid_utf8(s@);
        valid_utf8_split(b, to as int);
        let head = b.subrange(0, to as int);
        let n = b.len();
        if from < to {
            is_char_boundary_iff_not_is_continuation_byte(b, from as int);
            is_char_boundary_iff_not_is_continuation_byte(head, from as int);
            assert(head[from as int] == b[from as int]);
        } else {
            is_char_boundary_start_end_of_seq(head);
            assert(head.len() == to);
        }
    }
    let (head, _) = s.split_at(to);
    proof {
        encode_utf8_decode_utf8(head@);
        encode_utf8_valid_utf8(head@);
    }
    let (_, piece) = head.split_at(from);
    proof {
        encode_utf8_decode_utf8(piece@);
        assert(piece.spec_bytes() =~= b.subrange(from as int, to as int));
        encode_utf8_valid_utf8(piece@);
    }
    piece
}

/// The path of the record file of crate `name` under the index root `base`.
pub fn compute_record_path(base: &str, name: &str) -> (res: String)
    requires
        is_layout_name(name@),
    ensures
        res@ == record_path(base@, name@),
        encode_utf8(name@).len() >= 4 ==> res@ == path_join(
            path_join(
                path_join(base@, decode_utf8(encode_utf8(name@).subrange(0, 2))),
                decode_utf8(encode_utf8(name@).subrange(2, 4)),
            ),
            name@,
        ),
{
    proof {
        law_record_path_layout(base@, name@);
    }
    let len = name.as_bytes().len();
    let root = base.to_owned();
    proof {
        encode_utf8_valid_utf8(name@);
        is_char_boundary_start_end_of_seq(name.spec_bytes());
    }
    if len == 1 {
        let dir = join_path(root, "1");
        proof {
            reveal_strlit("1");
            assert("1"@ =~= seq!['1']);
        }
        join_path(dir, name)
    } else if len == 2 {
        let dir = join_path(root, "2");
        proof {
            reveal_strlit("2");
            assert("2"@ =~= seq!['2']);
        }
        join_path(dir, name)
    } else if len == 3 {
        let dir = join_path(root, "3");
        proof {
            reveal_strlit("3");
            assert("3"@ =~= seq!['3']);
        }
        let dir = join_path(dir, byte_piece(name, 0, 1));
        join_path(dir, name)
    } else {
        let dir = join_path(root, byte_piece(name, 0, 2));
        let dir = join_path(dir, byte_piece(name, 2, 4));
        join_path(dir, name)
    }
}

/// Where the index layout puts a crate's record file, by the length `n` of its name in
/// UTF-8 bytes: `base/1/name` for `n == 1`, `base/2/name` for `n == 2`,
/// `base/3/<byte 0>/name` for `n == 3`, and `base/<bytes 0..2>/<bytes 2..4>/name` for every
/// longer name, each component appended as `path_join` says.
pub proof fn law_record_path_layout(base: Seq<char>, name: Seq<char>)
    requires
        is_layout_name(name),
    ensures
        ({
            let b = encode_utf8(name);
            &&& b.len() == 1 ==> record_path(base, name) == path_join(
                path_join(base, seq!['1']),
                name,
            )
            &&& b.len() == 2 ==> record_path(base, name) == path_join(
                path_join(base, seq!['2']),
                name,
            )
            &&& b.len() == 3 ==> record_path(base, name) == path_join(
                path_join(path_join(base, seq!['3']), decode_utf8(b.subrange(0, 1))),
                name,
            )
            &&& b.len() >= 4 ==> record_path(base, name) == path_join(
                path_join(
                    path_join(base, decode_utf8(b.subrange(0, 2))),
                    decode_utf8(b.subrange(2, 4)),
                ),
                name,
            )
        }),
{
}

/// A text holds no `/`.
pub open spec fn has_no_slash(s: Seq<char>) -> bool {
    forall|i: int| 0 <= i < s.len() ==> s[i] != '/'
}

/// Joining a non-empty component gives a non-empty path; when the component does not
/// start with `/` and the path is not empty, the result ends with `/` and the component.
proof fn lemma_join_appends(base: Seq<char>, part: Seq<char>)
    requires
        part.len() > 0,
    ensures
        path_join(base, part).len() > 0,
        base.len() > 0 && part[0] != '/' ==> {
            let r = path_join(base, part);
            &&& r.len() > part.len()
            &&& r[r.len() - part.len() - 1] == '/'
            &&& r.subrange(r.len() - part.len(), r.len() as int) == part
        },
{
    let r = path_join(base, part);
    if base.len() > 0 && part[0] != '/' {
        if base.last() == '/' {
            assert(r == base + part);
            assert(r.subrange(r.len() - part.len(), r.len() as int) =~= part);
        } else {
            assert(r == base + seq!['/'] + part);
            assert(r.subrange(r.len() - part.len(), r.len() as int) =~= part);
        }
    }
}

/// The characters of non-empty valid UTF-8 bytes are not none.
proof fn lemma_decode_nonempty(bytes: Seq<u8>)
    requires
        bytes.len() > 0,
        valid_utf8(bytes),
    ensures
        decode_utf8(bytes).len() > 0,
{
}

/// The directories of a crate's record file are non-empty.
proof fn lemma_record_dirs_nonempty(name: Seq<char>)
    requires
        is_layout_name(name),
    ensures
        record_dirs(name).len() >= 1,
        forall|k: int| 0 <= k < record_dirs(name).len() ==> #[trigger] record_dirs(name)[k].len() > 0,
{
    let b = encode_utf8(name);
    encode_utf8_valid_utf8(name);
    if b.len() == 3 {
        valid_utf8_split(b, 1);
        lemma_decode_nonempty(b.subrange(0, 1));
    } else if b.len() >= 4 {
        valid_utf8_split(b, 2);
        valid_utf8_split(b, 4);
        let head = b.subrange(0, 4);
        let tail = b.subrange(2, b.len() as int);
        lemma_decode_nonempty(b.subrange(0, 2));
        is_char_boundary_iff_not_is_continuation_byte(b, 2);
        is_char_boundary_iff_not_is_continuation_byte(head, 2);
        assert(head[2] == b[2]);
        valid_utf8_split(head, 2);
        assert(head.subrange(2, 4) =~= b.subrange(2, 4));
        lemma_decode_nonempty(b.subrange(2, 4));
    }
}

/// The path of a crate's record file ends with `/` and the crate's name (names without
/// `/`, as Cargo's crate names are).
proof fn lemma_record_path_ends_with_name(base: Seq<char>, name: Seq<char>)
    requires
        is_layout_name(name),
        has_no_slash(name),
    ensures
        ({
            let r = record_path(base, name);
            &&& r.len() > name.len()
            &&& r[r.len() - name.len() - 1] == '/'
            &&& r.subrange(r.len() - name.len(), r.len() as int) == name
        }),
{
    let dirs = record_dirs(name);
    lemma_record_dirs_nonempty(name);
    encode_utf8_decode_utf8(name);
    assert(name.len() > 0) by {
        if name.len() == 0 {
            assert(name =~= Seq::<char>::empty());
        }
    }
    assert(name[0] != '/');
    if dirs.len() == 1 {
        assert(dirs[0].len() > 0);
        lemma_join_appends(base, dirs[0]);
        lemma_join_appends(path_join(base, dirs[0]), name);
    } else {
        assert(dirs[0].len() > 0 && dirs[1].len() > 0);
        lemma_join_appends(base, dirs[0]);
        lemma_join_appends(path_join(base, dirs[0]), dirs[1]);
        lemma_join_appends(path_join(path_join(base, dirs[0]), dirs[1]), name);
    }
}

/// Distinct crates have distinct record files: under the same root, two different names
/// (that the layout can cut, and without `/`, as Cargo's crate names are) get different
/// record paths.
pub proof fn law_record_paths_distinct(base: Seq<char>, n1: Seq<char>, n2: Seq<char>)
    requires
        is_layout_name(n1),
        is_layout_name(n2),
        has_no_slash(n1),
        has_no_slash(n2),
        n1 != n2,
    ensures
        record_path(base, n1) != record_path(base, n2),
{
    lemma_record_path_ends_with_name(base, n1);
    lemma_record_path_ends_with_name(base, n2);
    let r1 = record_path(base, n1);
    let r2 = record_path(base, n2);
    if r1 == r2 {
        let r = r1;
        if n1.len() < n2.len() {
            let k = r.len() - n1.len() - 1;
            assert(r[k] == '/');
            assert(n2[k - (r.len() - n2.len())] == r.subrange(r.len() - n2.len(), r.len() as int)[k - (r.len() - n2.len())]);
            assert(false);
        } else if n2.len() < n1.len() {
            let k = r.len() - n2.len() - 1;
            assert(r[k] == '/');
            assert(n1[k - (r.len() - n1.len())] == r.subrange(r.len() - n1.len(), r.len() as int)[k - (r.len() - n1.len())]);
            assert(false);
        } else {
            assert(n1 == r.subrange(r.len() - n1.len(), r.len() as int));
        }
    }
}

} // verus!
