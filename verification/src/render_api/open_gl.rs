//! The OpenGL side of the rendering interface that involves no call into the
//! driver: the enumeration values that OpenGL uses, the splitting of a shader
//! file into its stages, and the reordering of image rows for upload.
use std::collections::HashMap;

use vstd::prelude::*;

use crate::render_api::buffer::{component_count, BufferElement, BufferLayout, ShaderDataType};

verus! {

/// `GL_FLOAT`.
pub const FLOAT: u32 = 0x1406;

/// `GL_INT`.
pub const INT: u32 = 0x1404;

/// `GL_BOOL`.
pub const BOOL: u32 = 0x8B56;

/// `GL_FRAGMENT_SHADER`.
pub const FRAGMENT_SHADER: u32 = 0x8B30;

/// `GL_VERTEX_SHADER`.
pub const VERTEX_SHADER: u32 = 0x8B31;

/// The OpenGL type of the components of a shader data type.
pub open spec fn open_gl_type(data_type: ShaderDataType) -> u32 {
    match data_type {
        ShaderDataType::Float | ShaderDataType::Vec2 | ShaderDataType::Vec3 | ShaderDataType::Vec4
        | ShaderDataType::Mat3 | ShaderDataType::Mat4 => FLOAT,
        ShaderDataType::Int | ShaderDataType::Int2 | ShaderDataType::Int3
        | ShaderDataType::Int4 => INT,
        ShaderDataType::Bool => BOOL,
    }
}

/// The components of the float, vector and matrix types are `GL_FLOAT`
/// (`0x1406`), those of the integer types `GL_INT` (`0x1404`), and those of
/// `Bool` are `GL_BOOL` (`0x8B56`).
pub proof fn lemma_open_gl_types()
    ensures
        open_gl_type(ShaderDataType::Float) == 0x1406,
        open_gl_type(ShaderDataType::Vec2) == 0x1406,
        open_gl_type(ShaderDataType::Vec3) == 0x1406,
        open_gl_type(ShaderDataType::Vec4) == 0x1406,
        open_gl_type(ShaderDataType::Mat3) == 0x1406,
        open_gl_type(ShaderDataType::Mat4) == 0x1406,
        open_gl_type(ShaderDataType::Int) == 0x1404,
        open_gl_type(ShaderDataType::Int2) == 0x1404,
        open_gl_type(ShaderDataType::Int3) == 0x1404,
        open_gl_type(ShaderDataType::Int4) == 0x1404,
        open_gl_type(ShaderDataType::Bool) == 0x8B56,
{
}

/// The OpenGL type of the components of `data_type`, as a vertex attribute
/// pointer wants it.
pub fn shader_type_to_open_gl_type(data_type: &ShaderDataType) -> (t: u32)
    ensures
        t == open_gl_type(*data_type),
        (*data_type == ShaderDataType::Float || *data_type == ShaderDataType::Vec2 || *data_type
            == ShaderDataType::Vec3 || *data_type == ShaderDataType::Vec4 || *data_type
            == ShaderDataType::Mat3 || *data_type == ShaderDataType::Mat4) ==> t == 0x1406,
        (*data_type == ShaderDataType::Int || *data_type == ShaderDataType::Int2 || *data_type
            == ShaderDataType::Int3 || *data_type == ShaderDataType::Int4) ==> t == 0x1404,
        *data_type == ShaderDataType::Bool ==> t == 0x8B56,
{
    match data_type {
        ShaderDataType::Float => FLOAT,
        ShaderDataType::Vec2 => FLOAT,
        ShaderDataType::Vec3 => FLOAT,
        ShaderDataType::Vec4 => FLOAT,
        ShaderDataType::Mat3 => FLOAT,
        ShaderDataType::Mat4 => FLOAT,
        ShaderDataType::Int => INT,
        ShaderDataType::Int2 => INT,
        ShaderDataType::Int3 => INT,
        ShaderDataType::Int4 => INT,
        ShaderDataType::Bool => BOOL,
    }
}

// ---------------------------------------------------------------------------
// Image rows
// ---------------------------------------------------------------------------

/// The index in the source image of the byte that lands at index `i` when the
/// first `rows` rows of `row_len` bytes are put in reverse order.
pub open spec fn flipped_index(i: int, row_len: int, rows: int) -> int {
    if i < rows * row_len {
        (rows - 1 - i / row_len) * row_len + i % row_len
    } else {
        i
    }
}

/// `out` is `pixels` with its first `rows` rows of `row_len` bytes in reverse
/// order (the last of them first) and every byte after them unchanged.
pub open spec fn is_vertical_flip(out: Seq<u8>, pixels: Seq<u8>, row_len: int, rows: int) -> bool {
    &&& out.len() == pixels.len()
    &&& forall|i: int|
        0 <= i < out.len() ==> #[trigger] out[i] == pixels[flipped_index(i, row_len, rows)]
}

/// The byte at row `r`, column `c` of an image with rows of `row_len` bytes.
proof fn lemma_cell(r: int, c: int, row_len: int, rows: int)
    requires
        0 <= r < rows,
        0 <= c < row_len,
    ensures
        0 <= r * row_len + c < rows * row_len,
        (r * row_len + c) / row_len == r,
        (r * row_len + c) % row_len == c,
{
    assert(r * row_len + c < rows * row_len) by (nonlinear_arith)
        requires
            0 <= r < rows,
            0 <= c < row_len,
    ;
    assert(0 <= r * row_len) by (nonlinear_arith)
        requires
            0 <= r,
            0 <= row_len,
    ;
    vstd::arithmetic::div_mod::lemma_fundamental_div_mod_converse(r * row_len + c, row_len, r, c);
}

/// A byte among the flipped rows comes from a byte among them.
proof fn lemma_flipped_index_in_rows(i: int, row_len: int, rows: int)
    requires
        0 <= i < rows * row_len,
        row_len > 0,
    ensures
        0 <= flipped_index(i, row_len, rows) < rows * row_len,
        flipped_index(i, row_len, rows) / row_len == rows - 1 - i / row_len,
        flipped_index(i, row_len, rows) % row_len == i % row_len,
{
    vstd::arithmetic::div_mod::lemma_fundamental_div_mod(i, row_len);
    let q = i / row_len;
    let c = i % row_len;
    assert(0 <= q < rows) by (nonlinear_arith)
        requires
            0 <= i < rows * row_len,
            row_len > 0,
            i == row_len * q + c,
            0 <= c < row_len,
    ;
    lemma_cell(rows - 1 - q, c, row_len, rows);
}

/// Row `r` of the flipped image is row `rows - 1 - r` of the image.
pub proof fn lemma_flip_moves_rows(out: Seq<u8>, pixels: Seq<u8>, row_len: int, rows: int, r: int, c: int)
    requires
        is_vertical_flip(out, pixels, row_len, rows),
        rows * row_len <= pixels.len(),
        0 <= r < rows,
        0 <= c < row_len,
    ensures
        out[r * row_len + c] == pixels[(rows - 1 - r) * row_len + c],
{
    lemma_cell(r, c, row_len, rows);
    assert(out[r * row_len + c] == pixels[flipped_index(r * row_len + c, row_len, rows)]);
}

/// Flipping the rows twice gives back the image.
pub proof fn lemma_flip_twice(pixels: Seq<u8>, once: Seq<u8>, twice: Seq<u8>, row_len: int, rows: int)
    requires
        row_len >= 0,
        rows >= 0,
        rows < 2 || rows * row_len <= pixels.len(),
        is_vertical_flip(once, pixels, row_len, rows),
        is_vertical_flip(twice, once, row_len, rows),
    ensures
        twice == pixels,
{
    assert forall|i: int| 0 <= i < pixels.len() implies twice[i] == pixels[i] by {
        assert(twice[i] == once[flipped_index(i, row_len, rows)]);
        if i < rows * row_len {
            lemma_flipped_index_in_rows(i, row_len, rows);
            let j = flipped_index(i, row_len, rows);
            lemma_flip_index_in_range(i, row_len, rows, pixels.len() as int);
            assert(once[j] == pixels[flipped_index(j, row_len, rows)]);
            vstd::arithmetic::div_mod::lemma_fundamental_div_mod(i, row_len);
            let q = i / row_len;
            assert((rows - 1 - (rows - 1 - q)) * row_len == row_len * q) by (nonlinear_arith);
            assert(flipped_index(j, row_len, rows) == i);
        }
    }
    assert(twice =~= pixels);
}

/// A flipped index stays within the image when the flipped rows do.
proof fn lemma_flip_index_in_range(i: int, row_len: int, rows: int, len: int)
    requires
        0 <= i < len,
        row_len >= 0,
        rows >= 0,
        rows < 2 || rows * row_len <= len,
    ensures
        0 <= flipped_index(i, row_len, rows) < len,
{
    if i < rows * row_len {
        assert(row_len > 0) by (nonlinear_arith)
            requires
                0 <= i < rows * row_len,
                rows >= 0,
        ;
        lemma_flipped_index_in_rows(i, row_len, rows);
        if rows < 2 {
            assert(rows == 1) by (nonlinear_arith)
                requires
                    0 <= i < rows * row_len,
                    rows < 2,
                    rows >= 0,
            ;
            assert(i / row_len == 0) by (nonlinear_arith)
                requires
                    0 <= i < row_len,
            ;
            vstd::arithmetic::div_mod::lemma_fundamental_div_mod(i, row_len);
            assert(i % row_len == i);
            assert(flipped_index(i, row_len, rows) == i);
        } else {
            assert(rows * row_len <= len);
        }
    }
}

/// The image `pixels` of `height` rows of `width` pixels of `channels` bytes,
/// with its rows in reverse order, so that the last row comes first.
///
/// With two or more rows the image must hold at least `height` whole rows; the
/// bytes after them stay where they are.
pub fn flip_vertical(pixels: Vec<u8>, width: usize, height: usize, channels: usize) -> (out: Vec<u8>)
    requires
        width * channels <= usize::MAX,
        height >= 2 ==> height * (width * channels) <= pixels.len(),
    ensures
        is_vertical_flip(out@, pixels@, (width * channels) as int, height as int),
{
    let row_stride = width * channels;
    let len = pixels.len();
    proof {
        if height < 2 {
            assert(height * row_stride <= row_stride) by (nonlinear_arith)
                requires
                    height < 2,
            ;
        }
    }
    let rows_len = height * row_stride;
    let mut out: Vec<u8> = Vec::with_capacity(len);
    let mut i: usize = 0;
    while i < len
        invariant
            len == pixels@.len(),
            row_stride == width * channels,
            rows_len == height * row_stride,
            height >= 2 ==> rows_len <= len,
            i <= len,
            out@.len() == i,
            forall|j: int|
                0 <= j < i ==> #[trigger] out@[j] == pixels@[flipped_index(
                    j,
                    row_stride as int,
                    height as int,
                )],
        decreases len - i,
    {
        proof {
            lemma_flip_index_in_range(i as int, row_stride as int, height as int, len as int);
        }
        let src = if i < rows_len {
            proof {
                lemma_flipped_index_in_rows(i as int, row_stride as int, height as int);
                vstd::arithmetic::div_mod::lemma_fundamental_div_mod(i as int, row_stride as int);
            }
            let row = i / row_stride;
            let col = i % row_stride;
            (height - 1 - row) * row_stride + col
        } else {
            i
        };
        out.push(pixels[src]);
        i = i + 1;
    }
    out
}


// ---------------------------------------------------------------------------
// Shader sources
// ---------------------------------------------------------------------------

/// The marker that starts a shader stage in a shader file: `#type`.
pub open spec fn type_token() -> Seq<char> {
    seq!['#', 't', 'y', 'p', 'e']
}

/// The marker starts at position `p` of `s`.
pub open spec fn token_at(s: Seq<char>, p: int) -> bool {
    0 <= p && p + 5 <= s.len() && s.subrange(p, p + 5) == type_token()
}

/// The first position at or after `from` where the marker starts.
pub open spec fn find_token(s: Seq<char>, from: int) -> Option<int>
    decreases s.len() - from,
{
    if from < 0 || from + 5 > s.len() {
        None
    } else if token_at(s, from) {
        Some(from)
    } else {
        find_token(s, from + 1)
    }
}

/// A carriage return or a line feed.
pub open spec fn is_line_break(c: char) -> bool {
    c == '\r' || c == '\n'
}

/// The first position at or after `from` that holds a line break.
pub open spec fn find_line_break(s: Seq<char>, from: int) -> Option<int>
    decreases s.len() - from,
{
    if from < 0 || from >= s.len() {
        None
    } else if is_line_break(s[from]) {
        Some(from)
    } else {
        find_line_break(s, from + 1)
    }
}

/// The first position at or after `from` that holds anything but a line break.
pub open spec fn find_line_start(s: Seq<char>, from: int) -> Option<int>
    decreases s.len() - from,
{
    if from < 0 || from >= s.len() {
        None
    } else if !is_line_break(s[from]) {
        Some(from)
    } else {
        find_line_start(s, from + 1)
    }
}

/// The characters with the Unicode `White_Space` property.
pub open spec fn is_white_space(c: char) -> bool {
    let n = c as u32;
    ||| 0x09 <= n <= 0x0D
    ||| n == 0x20
    ||| n == 0x85
    ||| n == 0xA0
    ||| n == 0x1680
    ||| 0x2000 <= n <= 0x200A
    ||| n == 0x2028
    ||| n == 0x2029
    ||| n == 0x202F
    ||| n == 0x205F
    ||| n == 0x3000
}

/// `s` without its leading white space.
pub open spec fn trim_start(s: Seq<char>) -> Seq<char>
    decreases s.len(),
{
    if s.len() > 0 && is_white_space(s[0]) {
        trim_start(s.drop_first())
    } else {
        s
    }
}

/// `s` without its trailing white space.
pub open spec fn trim_end(s: Seq<char>) -> Seq<char>
    decreases s.len(),
{
    if s.len() > 0 && is_white_space(s.last()) {
        trim_end(s.drop_last())
    } else {
        s
    }
}

/// `s` without its leading and trailing white space.
pub open spec fn trim(s: Seq<char>) -> Seq<char> {
    trim_end(trim_start(s))
}

/// The shader stage that a stage name stands for: `vertex` for the vertex
/// shader, `fragment` or `pixel` for the fragment shader.
pub open spec fn shader_kind(name: Seq<char>) -> Option<u32> {
    if name == seq!['v', 'e', 'r', 't', 'e', 'x'] {
        Some(VERTEX_SHADER)
    } else if name == seq!['f', 'r', 'a', 'g', 'm', 'e', 'n', 't'] || name == seq![
        'p',
        'i',
        'x',
        'e',
        'l',
    ] {
        Some(FRAGMENT_SHADER)
    } else {
        None
    }
}

pub proof fn lemma_find_token(s: Seq<char>, from: int)
    requires
        0 <= from,
    ensures
        find_token(s, from) matches Some(p) ==> from <= p && token_at(s, p),
        find_token(s, from) matches Some(p) ==> forall|q: int|
            from <= q < p ==> !#[trigger] token_at(s, q),
        find_token(s, from) is None ==> forall|p: int| from <= p ==> !#[trigger] token_at(s, p),
    decreases s.len() - from,
{
    if !(from < 0 || from + 5 > s.len()) && !token_at(s, from) {
        lemma_find_token(s, from + 1);
    }
}

pub proof fn lemma_find_line_break(s: Seq<char>, from: int)
    ensures
        find_line_break(s, from) matches Some(p) ==> from <= p < s.len() && is_line_break(s[p]),
    decreases s.len() - from,
{
    if !(from < 0 || from >= s.len()) && !is_line_break(s[from]) {
        lemma_find_line_break(s, from + 1);
    }
}

pub proof fn lemma_find_line_start(s: Seq<char>, from: int)
    ensures
        find_line_start(s, from) matches Some(p) ==> from <= p < s.len(),
    decreases s.len() - from,
{
    if !(from < 0 || from >= s.len()) && is_line_break(s[from]) {
        lemma_find_line_start(s, from + 1);
    }
}

/// The stages of a shader file, read from a marker at `pos` on: for every
/// marker, the stage named on the rest of its line and the text from the next
/// line on up to the next marker (or the end), without leading white space.
///
/// `None` when the file is malformed there: the marker line does not end, the
/// marker is followed directly by a line break or by a character outside ASCII,
/// or a stage that has text is not `vertex`, `fragment` or `pixel`. A last
/// marker with nothing after its line gives no stage.
pub open spec fn sections_from(s: Seq<char>, pos: int) -> Option<Seq<(u32, Seq<char>)>>
    decreases s.len() - pos,
{
    if !token_at(s, pos) {
        None
    } else {
        match find_line_break(s, pos) {
            None => None,
            Some(eol) => if eol < pos + 6 || (s[pos + 5] as u32) >= 128 {
                None
            } else {
                match find_line_start(s, eol) {
                    None => Some(Seq::empty()),
                    Some(start) => match shader_kind(trim(s.subrange(pos + 6, eol))) {
                        None => None,
                        Some(kind) => match find_token(s, start) {
                            None => Some(seq![(kind, trim_start(s.subrange(start, s.len() as int)))]),
                            Some(next) => {
                                proof {
                                    lemma_find_line_break(s, pos);
                                    lemma_find_line_start(s, eol);
                                    lemma_find_token(s, start);
                                }
                                match sections_from(s, next) {
                                    None => None,
                                    Some(rest) => Some(
                                        seq![(kind, trim_start(s.subrange(start, next)))] + rest,
                                    ),
                                }
                            },
                        },
                    },
                }
            },
        }
    }
}

/// The map from stage to text that a list of stages gives when each stage is
/// stored in turn, a later text of a stage replacing an earlier one.
pub open spec fn sections_map(sections: Seq<(u32, Seq<char>)>) -> Map<u32, Seq<char>>
    decreases sections.len(),
{
    if sections.len() == 0 {
        Map::empty()
    } else {
        sections_map(sections.drop_last()).insert(sections.last().0, sections.last().1)
    }
}

/// The stages of a shader file by stage (see [`sections_from`]), or `None` when
/// the file is malformed. A file without any marker has no stage.
pub open spec fn shader_sources(s: Seq<char>) -> Option<Map<u32, Seq<char>>> {
    match find_token(s, 0) {
        None => Some(Map::empty()),
        Some(p) => match sections_from(s, p) {
            None => None,
            Some(sections) => Some(sections_map(sections)),
        },
    }
}

/// Dropping leading white space keeps a suffix.
proof fn lemma_trim_start_is_suffix(t: Seq<char>)
    ensures
        trim_start(t).len() <= t.len(),
        trim_start(t) == t.skip(t.len() - trim_start(t).len()),
    decreases t.len(),
{
    if t.len() > 0 && is_white_space(t[0]) {
        lemma_trim_start_is_suffix(t.drop_first());
        assert(t.drop_first().skip(t.drop_first().len() - trim_start(t).len()) =~= t.skip(
            t.len() - trim_start(t).len(),
        ));
    } else {
        assert(t.skip(0) =~= t);
    }
}

/// A piece of `s` that no marker of `s` starts in holds no marker, and neither
/// does any suffix of it.
proof fn lemma_no_marker_in_piece(s: Seq<char>, a: int, b: int, k: int)
    requires
        0 <= a <= b <= s.len(),
        0 <= k <= b - a,
        forall|p: int| a <= p ==> !#[trigger] token_at(s, p) || p + 5 > b,
    ensures
        forall|j: int| !#[trigger] token_at(s.subrange(a, b).skip(k), j),
{
    assert forall|j: int| !#[trigger] token_at(s.subrange(a, b).skip(k), j) by {
        let piece = s.subrange(a, b).skip(k);
        if token_at(piece, j) {
            assert(piece.subrange(j, j + 5) =~= s.subrange(a + k + j, a + k + j + 5));
            assert(token_at(s, a + k + j));
        }
    }
}

/// The text of every stage read from the marker at `pos` on holds no marker.
proof fn lemma_sections_hold_no_marker(s: Seq<char>, pos: int)
    requires
        sections_from(s, pos) is Some,
    ensures
        forall|i: int, j: int|
            0 <= i < sections_from(s, pos).unwrap().len() ==> !#[trigger] token_at(
                sections_from(s, pos).unwrap()[i].1,
                j,
            ),
    decreases s.len() - pos,
{
    let eol = find_line_break(s, pos).unwrap();
    lemma_find_line_break(s, pos);
    if let Some(start) = find_line_start(s, eol) {
        lemma_find_line_start(s, eol);
        lemma_find_token(s, start);
        match find_token(s, start) {
            None => {
                let t = s.subrange(start, s.len() as int);
                lemma_trim_start_is_suffix(t);
                lemma_no_marker_in_piece(s, start, s.len() as int, t.len() - trim_start(t).len());
            },
            Some(next) => {
                let t = s.subrange(start, next);
                lemma_trim_start_is_suffix(t);
                assert forall|p: int| start <= p implies !#[trigger] token_at(s, p) || p + 5
                    > next by {
                    if token_at(s, p) && p + 5 <= next {
                        assert(p < next);
                        assert(!token_at(s, p));
                    }
                }
                lemma_no_marker_in_piece(s, start, next, t.len() - trim_start(t).len());
                lemma_sections_hold_no_marker(s, next);
                let first = seq![(shader_kind(trim(s.subrange(pos + 6, eol))).unwrap(), trim_start(t))];
                let rest = sections_from(s, next).unwrap();
                assert forall|i: int, j: int|
                    0 <= i < sections_from(s, pos).unwrap().len() implies !#[trigger] token_at(
                    sections_from(s, pos).unwrap()[i].1,
                    j,
                ) by {
                    if i > 0 {
                        assert(sections_from(s, pos).unwrap()[i] == rest[i - 1]);
                    }
                }
            },
        }
    }
}

/// Every text of the map is the text of one of the stages.
proof fn lemma_sections_map_values(sections: Seq<(u32, Seq<char>)>, k: u32)
    requires
        sections_map(sections).contains_key(k),
    ensures
        exists|i: int| 0 <= i < sections.len() && #[trigger] sections[i] == (k, sections_map(sections)[k]),
    decreases sections.len(),
{
    let last = sections.last();
    if last.0 == k {
        assert(sections[sections.len() - 1] == (k, sections_map(sections)[k]));
    } else {
        lemma_sections_map_values(sections.drop_last(), k);
        let i = choose|i: int|
            0 <= i < sections.drop_last().len() && #[trigger] sections.drop_last()[i] == (
                k,
                sections_map(sections.drop_last())[k],
            );
        assert(sections[i] == (k, sections_map(sections)[k]));
    }
}

/// No stage text that a shader file gives holds a `#type` marker: each one ends
/// where the next marker starts.
pub proof fn lemma_stage_texts_hold_no_marker(s: Seq<char>, k: u32, j: int)
    requires
        shader_sources(s) is Some,
        shader_sources(s).unwrap().contains_key(k),
    ensures
        !token_at(shader_sources(s).unwrap()[k], j),
{
    let p = find_token(s, 0).unwrap();
    let sections = sections_from(s, p).unwrap();
    lemma_sections_hold_no_marker(s, p);
    lemma_sections_map_values(sections, k);
    let i = choose|i: int| 0 <= i < sections.len() && #[trigger] sections[i] == (k, sections_map(sections)[k]);
    assert(!token_at(sections[i].1, j));
}

/// The number of `#type` markers that start at or after `from`.
pub open spec fn token_count(s: Seq<char>, from: int) -> nat
    decreases s.len() - from,
{
    if from < 0 || from + 5 > s.len() {
        0
    } else {
        (if token_at(s, from) {
            1nat
        } else {
            0nat
        }) + token_count(s, from + 1)
    }
}

/// `t` is a piece of `s` that starts at or after position `from`.
pub open spec fn is_piece_after(t: Seq<char>, s: Seq<char>, from: int) -> bool {
    exists|a: int, b: int| from <= a <= b <= s.len() && t == s.subrange(a, b)
}

proof fn lemma_token_count_monotone(s: Seq<char>, a: int, b: int)
    requires
        0 <= a <= b,
    ensures
        token_count(s, a) >= token_count(s, b),
    decreases b - a,
{
    if a < b {
        lemma_token_count_monotone(s, a + 1, b);
    }
}

proof fn lemma_trim_start_has_no_leading_white_space(t: Seq<char>)
    ensures
        trim_start(t).len() == 0 || !is_white_space(trim_start(t)[0]),
    decreases t.len(),
{
    if t.len() > 0 && is_white_space(t[0]) {
        lemma_trim_start_has_no_leading_white_space(t.drop_first());
    }
}

/// The stages read from the marker at `pos` on: no more of them than markers,
/// each of a vertex or fragment stage, and each text a piece of the file after
/// the marker that does not start with white space.
proof fn lemma_sections_shape(s: Seq<char>, pos: int)
    requires
        sections_from(s, pos) is Some,
    ensures
        sections_from(s, pos).unwrap().len() <= token_count(s, pos),
        forall|i: int|
            0 <= i < sections_from(s, pos).unwrap().len() ==> {
                let item = #[trigger] sections_from(s, pos).unwrap()[i];
                &&& (item.0 == VERTEX_SHADER || item.0 == FRAGMENT_SHADER)
                &&& is_piece_after(item.1, s, pos + 5)
                &&& (item.1.len() == 0 || !is_white_space(item.1[0]))
            },
    decreases s.len() - pos,
{
    let eol = find_line_break(s, pos).unwrap();
    lemma_find_line_break(s, pos);
    let secs = sections_from(s, pos).unwrap();
    if let Some(start) = find_line_start(s, eol) {
        lemma_find_line_start(s, eol);
        lemma_find_token(s, start);
        let end = match find_token(s, start) {
            None => s.len() as int,
            Some(next) => next,
        };
        let t = s.subrange(start, end);
        lemma_trim_start_is_suffix(t);
        lemma_trim_start_has_no_leading_white_space(t);
        let k = t.len() - trim_start(t).len();
        assert(trim_start(t) == s.subrange(start + k, end));
        assert(is_piece_after(trim_start(t), s, pos + 5));
        assert(token_count(s, pos) == 1 + token_count(s, pos + 1));
        match find_token(s, start) {
            None => {},
            Some(next) => {
                lemma_sections_shape(s, next);
                lemma_token_count_monotone(s, pos + 1, next);
                let rest = sections_from(s, next).unwrap();
                assert forall|i: int| 0 <= i < secs.len() implies {
                    let item = #[trigger] secs[i];
                    &&& (item.0 == VERTEX_SHADER || item.0 == FRAGMENT_SHADER)
                    &&& is_piece_after(item.1, s, pos + 5)
                    &&& (item.1.len() == 0 || !is_white_space(item.1[0]))
                } by {
                    if i > 0 {
                        assert(secs[i] == rest[i - 1]);
                        let item = rest[i - 1];
                        let (a, b) = choose|a: int, b: int|
                            next + 5 <= a <= b <= s.len() && item.1 == s.subrange(a, b);
                        assert(pos + 5 <= a);
                    }
                }
            },
        }
    }
}

/// The map of a list of stages has at most as many stages as the list, each
/// one a stage of the list.
proof fn lemma_sections_map_dom(sections: Seq<(u32, Seq<char>)>)
    ensures
        sections_map(sections).dom().finite(),
        sections_map(sections).dom().len() <= sections.len(),
    decreases sections.len(),
{
    if sections.len() > 0 {
        lemma_sections_map_dom(sections.drop_last());
    }
}

/// A shader file gives no more stages than it has `#type` markers; each stage
/// is the vertex or the fragment stage; each text is a piece of the file that
/// starts after the first marker (what comes before it is dropped) and does not
/// start with white space.
pub proof fn lemma_shader_sources_shape(s: Seq<char>, k: u32)
    requires
        shader_sources(s) is Some,
    ensures
        shader_sources(s).unwrap().dom().finite(),
        shader_sources(s).unwrap().dom().len() <= token_count(s, 0),
        shader_sources(s).unwrap().contains_key(k) ==> {
            let text = shader_sources(s).unwrap()[k];
            &&& (k == VERTEX_SHADER || k == FRAGMENT_SHADER)
            &&& find_token(s, 0) matches Some(first) && is_piece_after(text, s, first + 5)
            &&& (text.len() == 0 || !is_white_space(text[0]))
        },
{
    lemma_find_token(s, 0);
    match find_token(s, 0) {
        None => {
            assert(shader_sources(s).unwrap().dom() =~= Set::<u32>::empty());
        },
        Some(p) => {
            let sections = sections_from(s, p).unwrap();
            lemma_sections_shape(s, p);
            lemma_sections_map_dom(sections);
            lemma_token_count_monotone(s, 0, p);
            if shader_sources(s).unwrap().contains_key(k) {
                lemma_sections_map_values(sections, k);
                let i = choose|i: int|
                    0 <= i < sections.len() && #[trigger] sections[i] == (
                        k,
                        sections_map(sections)[k],
                    );
                assert(sections[i].0 == k);
            }
        },
    }
}

/// Whether `c` has the Unicode `White_Space` property.
pub fn is_white_space_char(c: char) -> (b: bool)
    ensures
        b == is_white_space(c),
{
    let n = c as u32;
    (0x09 <= n && n <= 0x0D) || n == 0x20 || n == 0x85 || n == 0xA0 || n == 0x1680 || (0x2000
        <= n && n <= 0x200A) || n == 0x2028 || n == 0x2029 || n == 0x202F || n == 0x205F || n
        == 0x3000
}

/// The characters of `s`.
fn chars_of(s: &str) -> (v: Vec<char>)
    ensures
        v@ == s@,
{
    let mut v: Vec<char> = Vec::new();
    for c in it: s.chars()
        invariant
            v@ == it.seq().take(it.index() as int),
            it.seq() == s@,
    {
        v.push(c);
    }
    v
}

/// The first marker at or after `from`.
fn next_token(text: &Vec<char>, from: usize) -> (r: Option<usize>)
    requires
        from <= text@.len(),
    ensures
        match r {
            Some(p) => find_token(text@, from as int) == Some(p as int),
            None => find_token(text@, from as int) is None,
        },
{
    let n = text.len();
    let mut i = from;
    while n - i >= 5
        invariant
            n == text@.len(),
            from <= i <= n,
            find_token(text@, from as int) == find_token(text@, i as int),
        decreases n - i,
    {
        if text[i] == '#' && text[i + 1] == 't' && text[i + 2] == 'y' && text[i + 3] == 'p' && text[i
            + 4] == 'e' {
            assert(text@.subrange(i as int, i + 5) =~= type_token());
            return Some(i);
        }
        assert(!token_at(text@, i as int)) by {
            if token_at(text@, i as int) {
                assert(text@.subrange(i as int, i + 5)[0] == text@[i as int]);
                assert(text@.subrange(i as int, i + 5)[1] == text@[i + 1]);
                assert(text@.subrange(i as int, i + 5)[2] == text@[i + 2]);
                assert(text@.subrange(i as int, i + 5)[3] == text@[i + 3]);
                assert(text@.subrange(i as int, i + 5)[4] == text@[i + 4]);
            }
        }
        i = i + 1;
    }
    None
}

/// The first line break at or after `from`.
fn next_line_break(text: &Vec<char>, from: usize) -> (r: Option<usize>)
    requires
        from <= text@.len(),
    ensures
        match r {
            Some(p) => find_line_break(text@, from as int) == Some(p as int),
            None => find_line_break(text@, from as int) is None,
        },
{
    let n = text.len();
    let mut i = from;
    while i < n
        invariant
            n == text@.len(),
            from <= i <= n,
            find_line_break(text@, from as int) == find_line_break(text@, i as int),
        decreases n - i,
    {
        if text[i] == '\r' || text[i] == '\n' {
            return Some(i);
        }
        i = i + 1;
    }
    None
}

/// The first position at or after `from` that is not a line break.
fn next_line_start(text: &Vec<char>, from: usize) -> (r: Option<usize>)
    requires
        from <= text@.len(),
    ensures
        match r {
            Some(p) => find_line_start(text@, from as int) == Some(p as int),
            None => find_line_start(text@, from as int) is None,
        },
{
    let n = text.len();
    let mut i = from;
    while i < n
        invariant
            n == text@.len(),
            from <= i <= n,
            find_line_start(text@, from as int) == find_line_start(text@, i as int),
        decreases n - i,
    {
        if !(text[i] == '\r' || text[i] == '\n') {
            return Some(i);
        }
        i = i + 1;
    }
    None
}

/// The start of `text[from..to]` once its leading white space is skipped.
fn skip_white_space(text: &Vec<char>, from: usize, to: usize) -> (i: usize)
    requires
        from <= to <= text@.len(),
    ensures
        from <= i <= to,
        trim_start(text@.subrange(from as int, to as int)) == text@.subrange(i as int, to as int),
{
    let mut i = from;
    while i < to && is_white_space_char(text[i])
        invariant
            from <= i <= to <= text@.len(),
            trim_start(text@.subrange(from as int, to as int)) == trim_start(
                text@.subrange(i as int, to as int),
            ),
        decreases to - i,
    {
        assert(text@.subrange(i as int, to as int).drop_first() =~= text@.subrange(
            i + 1,
            to as int,
        ));
        i = i + 1;
    }
    i
}

/// The end of `text[from..to]` once its trailing white space is dropped.
fn skip_white_space_back(text: &Vec<char>, from: usize, to: usize) -> (j: usize)
    requires
        from <= to <= text@.len(),
    ensures
        from <= j <= to,
        trim_end(text@.subrange(from as int, to as int)) == text@.subrange(from as int, j as int),
{
    let mut j = to;
    while j > from && is_white_space_char(text[j - 1])
        invariant
            from <= j <= to <= text@.len(),
            trim_end(text@.subrange(from as int, to as int)) == trim_end(
                text@.subrange(from as int, j as int),
            ),
        decreases j - from,
    {
        assert(text@.subrange(from as int, j as int).drop_last() =~= text@.subrange(
            from as int,
            j - 1,
        ));
        j = j - 1;
    }
    j
}

/// Whether `text[from..to]` is `word`.
fn range_is(text: &Vec<char>, from: usize, to: usize, word: &Vec<char>) -> (b: bool)
    requires
        from <= to <= text@.len(),
    ensures
        b == (text@.subrange(from as int, to as int) == word@),
{
    if to - from != word.len() {
        return false;
    }
    let mut k: usize = 0;
    while k < word.len()
        invariant
            from <= to <= text@.len(),
            to - from == word@.len(),
            k <= word@.len(),
            forall|m: int| 0 <= m < k ==> text@[from + m] == word@[m],
        decreases word@.len() - k,
    {
        if text[from + k] != word[k] {
            assert(text@.subrange(from as int, to as int)[k as int] != word@[k as int]);
            return false;
        }
        k = k + 1;
    }
    assert(text@.subrange(from as int, to as int) =~= word@);
    true
}

/// The shader stage that the name `text[from..to]` stands for.
fn stage_of(text: &Vec<char>, from: usize, to: usize) -> (r: Option<u32>)
    requires
        from <= to <= text@.len(),
    ensures
        r == shader_kind(text@.subrange(from as int, to as int)),
{
    let vertex = vec!['v', 'e', 'r', 't', 'e', 'x'];
    let fragment = vec!['f', 'r', 'a', 'g', 'm', 'e', 'n', 't'];
    let pixel = vec!['p', 'i', 'x', 'e', 'l'];
    assert(vertex@ == seq!['v', 'e', 'r', 't', 'e', 'x']);
    assert(fragment@ == seq!['f', 'r', 'a', 'g', 'm', 'e', 'n', 't']);
    assert(pixel@ == seq!['p', 'i', 'x', 'e', 'l']);
    if range_is(text, from, to, &vertex) {
        Some(VERTEX_SHADER)
    } else if range_is(text, from, to, &fragment) || range_is(text, from, to, &pixel) {
        Some(FRAGMENT_SHADER)
    } else {
        None
    }
}

/// The OpenGL shader stage that a stage name stands for: `vertex` for the vertex
/// shader, `fragment` or `pixel` for the fragment shader; any other name is
/// refused.
pub fn shader_type_from_string(type_str: &str) -> (t: u32)
    requires
        shader_kind(type_str@) is Some,
    ensures
        shader_kind(type_str@) == Some(t),
{
    let text = chars_of(type_str);
    let n = text.len();
    match stage_of(&text, 0, n) {
        Some(t) => {
            assert(text@.subrange(0, n as int) =~= text@);
            t
        },
        None => {
            assert(text@.subrange(0, n as int) =~= text@);
            0
        },
    }
}

/// Whether `source` is a well-formed shader file, one that
/// [`pre_process_shader`] accepts (see [`sections_from`]).
pub fn is_well_formed_shader_source(source: &String) -> (b: bool)
    ensures
        b == shader_sources(source@) is Some,
{
    let text = chars_of(source.as_str());
    let ghost s = text@;
    let n = text.len();
    let mut pos_opt = next_token(&text, 0);
    proof {
        lemma_find_token(s, 0);
    }
    let ghost first = pos_opt;
    while pos_opt.is_some()
        invariant_except_break
            pos_opt matches Some(pos) ==> token_at(s, pos as int) && (first matches Some(p0) && (
            sections_from(s, p0 as int) is Some <==> sections_from(s, pos as int) is Some)),
            first is Some ==> pos_opt is Some,
        invariant
            s == text@,
            s == source@,
            n == s.len(),
            first matches Some(p0) ==> find_token(s, 0) == Some(p0 as int),
            first is None ==> find_token(s, 0) is None && pos_opt is None,
        ensures
            pos_opt is None,
            first matches Some(p0) ==> sections_from(s, p0 as int) is Some,
        decreases n - pos_opt.unwrap(),
    {
        let pos = pos_opt.unwrap();
        proof {
            lemma_find_line_break(s, pos as int);
        }
        let eol = match next_line_break(&text, pos) {
            Some(eol) => eol,
            None => {
                return false;
            },
        };
        if eol < pos + 6 || text[pos + 5] as u32 >= 128 {
            return false;
        }
        let name_start = skip_white_space(&text, pos + 6, eol);
        let name_end = skip_white_space_back(&text, name_start, eol);
        proof {
            lemma_find_line_start(s, eol as int);
        }
        match next_line_start(&text, eol) {
            None => {
                pos_opt = None;
                break ;
            },
            Some(start) => {
                if stage_of(&text, name_start, name_end).is_none() {
                    return false;
                }
                proof {
                    lemma_find_token(s, start as int);
                }
                match next_token(&text, start) {
                    Some(next_pos) => {
                        pos_opt = Some(next_pos);
                    },
                    None => {
                        pos_opt = None;
                        break ;
                    },
                }
            },
        }
    }
    true
}

proof fn lemma_sections_map_push(done: Seq<(u32, Seq<char>)>, item: (u32, Seq<char>))
    ensures
        sections_map(done.push(item)) == sections_map(done).insert(item.0, item.1),
{
    assert(done.push(item).drop_last() =~= done);
}

/// The stages of a shader file, by OpenGL shader stage: every `#type <stage>`
/// line starts a stage, whose text runs from the next line up to the next
/// `#type` line or the end of the file (see [`shader_sources`]).
pub fn pre_process_shader(source: String) -> (out: HashMap<u32, String>)
    requires
        shader_sources(source@) is Some,
    ensures
        out@.dom() == shader_sources(source@).unwrap().dom(),
        forall|k: u32|
            #[trigger] out@.contains_key(k) ==> out@[k]@ == shader_sources(source@).unwrap()[k],
{
    let text = chars_of(source.as_str());
    let ghost s = text@;
    let n = text.len();
    let mut shader_sources_map: HashMap<u32, String> = HashMap::new();
    let mut pos_opt = next_token(&text, 0);
    let ghost all: Seq<(u32, Seq<char>)> = match find_token(s, 0) {
        Some(p) => sections_from(s, p).unwrap(),
        None => Seq::empty(),
    };
    let ghost mut done: Seq<(u32, Seq<char>)> = Seq::empty();
    proof {
        lemma_find_token(s, 0);
    }
    while pos_opt.is_some()
        invariant_except_break
            pos_opt matches Some(pos) ==> {
                &&& token_at(s, pos as int)
                &&& sections_from(s, pos as int) matches Some(rest) && all == done + rest
            },
        invariant
            s == text@,
            s == source@,
            n == s.len(),
            shader_sources(s) == Some(sections_map(all)),
            pos_opt is None ==> all == done,
            forall|k: u32| #[trigger]
                shader_sources_map@.contains_key(k) ==> shader_sources_map@[k]@ == sections_map(
                    done,
                )[k],
            shader_sources_map@.dom() == sections_map(done).dom(),
        ensures
            all == done,
        decreases n - pos_opt.unwrap(),
    {
        let pos = pos_opt.unwrap();
        let ghost rest = sections_from(s, pos as int).unwrap();
        proof {
            lemma_find_line_break(s, pos as int);
        }
        let eol = next_line_break(&text, pos).unwrap();
        let begin = pos + 6;
        let name_start = skip_white_space(&text, begin, eol);
        let name_end = skip_white_space_back(&text, name_start, eol);
        assert(trim(s.subrange(begin as int, eol as int)) == s.subrange(
            name_start as int,
            name_end as int,
        ));
        proof {
            lemma_find_line_start(s, eol as int);
        }
        match next_line_start(&text, eol) {
            None => {
                assert(rest =~= Seq::<(u32, Seq<char>)>::empty());
                assert(all =~= done);
                pos_opt = None;
                break ;
            },
            Some(start) => {
                let kind = stage_of(&text, name_start, name_end).unwrap();
                proof {
                    lemma_find_token(s, start as int);
                }
                let next = next_token(&text, start);
                match next {
                    Some(next_pos) => {
                        let body_start = skip_white_space(&text, start, next_pos);
                        let body = String::from_str(source.as_str().substring_char(body_start, next_pos));
                        let ghost item = (kind, trim_start(s.subrange(start as int, next_pos as int)));
                        proof {
                            lemma_sections_map_push(done, item);
                            assert(all == done.push(item) + sections_from(s, next_pos as int).unwrap()) by {
                                assert(rest == seq![item] + sections_from(s, next_pos as int).unwrap());
                                assert(done + rest =~= done.push(item) + sections_from(s, next_pos as int).unwrap());
                            }
                            done = done.push(item);
                        }
                        shader_sources_map.insert(kind, body);
                        pos_opt = Some(next_pos);
                    },
                    None => {
                        let body_start = skip_white_space(&text, start, n);
                        let body = String::from_str(source.as_str().substring_char(body_start, n));
                        let ghost item = (kind, trim_start(s.subrange(start as int, n as int)));
                        proof {
                            lemma_sections_map_push(done, item);
                            assert(rest == seq![item]);
                            assert(all =~= done.push(item));
                            done = done.push(item);
                        }
                        shader_sources_map.insert(kind, body);
                        pos_opt = None;
                        break ;
                    },
                }
            },
        }
    }
    shader_sources_map
}


// ---------------------------------------------------------------------------
// Vertex attributes
// ---------------------------------------------------------------------------

/// `GL_TRUE`.
pub const TRUE: u8 = 1;

/// `GL_FALSE`.
pub const FALSE: u8 = 0;

/// What OpenGL is told about one attribute of the vertices of a buffer.
#[derive(Debug, Clone, Copy, PartialEq, Eq, Structural)]
pub struct VertexAttribute {
    /// The attribute's location: its position in the layout.
    pub index: u32,
    /// The number of components of its type.
    pub component_count: i32,
    /// The OpenGL type of its components.
    pub gl_type: u32,
    /// [`TRUE`] when its values are normalized, else [`FALSE`].
    pub normalized: u8,
    /// The size of a whole vertex.
    pub stride: i32,
    /// Where the attribute starts within a vertex.
    pub offset: u32,
}

/// The attribute that OpenGL is told about for `element`, the `index`-th
/// element of a layout with the given stride.
pub open spec fn attribute_of(element: BufferElement, index: int, stride: u32) -> VertexAttribute {
    VertexAttribute {
        index: index as u32,
        component_count: component_count(element.spec_data_type()),
        gl_type: open_gl_type(element.spec_data_type()),
        normalized: if element.spec_normalized() {
            TRUE
        } else {
            FALSE
        },
        stride: stride as i32,
        offset: element.spec_offset(),
    }
}

/// The attributes of the elements of `layout`, in order, as a vertex array
/// declares them for a vertex buffer with that layout.
pub fn vertex_attributes(layout: &BufferLayout) -> (attributes: Vec<VertexAttribute>)
    ensures
        attributes@.len() == layout.spec_elements().len(),
        forall|i: int|
            0 <= i < attributes@.len() ==> #[trigger] attributes@[i] == attribute_of(
                layout.spec_elements()[i],
                i,
                layout.spec_stride(),
            ),
{
    let elements = layout.get_elements();
    let stride = layout.get_stride();
    let mut attributes: Vec<VertexAttribute> = Vec::new();
    let mut i: usize = 0;
    while i < elements.len()
        invariant
            elements@ == layout.spec_elements(),
            stride == layout.spec_stride(),
            i <= elements@.len(),
            attributes@.len() == i,
            forall|j: int|
                0 <= j < i ==> #[trigger] attributes@[j] == attribute_of(elements@[j], j, stride),
        decreases elements@.len() - i,
    {
        let element = &elements[i];
        let attribute = VertexAttribute {
            index: #[verifier::truncate] (i as u32),
            component_count: element.get_component_count(),
            gl_type: shader_type_to_open_gl_type(element.get_data_type()),
            normalized: if *element.get_normailzed() {
                TRUE
            } else {
                FALSE
            },
            stride: #[verifier::truncate] (stride as i32),
            offset: element.get_offset(),
        };
        attributes.push(attribute);
        i = i + 1;
    }
    attributes
}

// ---------------------------------------------------------------------------
// Surface configurations
// ---------------------------------------------------------------------------

/// What the choice of a surface configuration looks at: whether the
/// configuration supports transparency (`None` when that is unknown) and its
/// number of samples per pixel.
#[derive(Debug, Clone, Copy, PartialEq, Eq, Structural)]
pub struct ConfigTraits {
    pub supports_transparency: Option<bool>,
    pub num_samples: u8,
}

/// `candidate` is preferred to `current` when it supports transparency and
/// `current` does not (an unknown answer counting as no), or when it has more
/// samples.
pub open spec fn preferred(candidate: ConfigTraits, current: ConfigTraits) -> bool {
    (candidate.supports_transparency == Some(true) && current.supports_transparency != Some(true))
        || candidate.num_samples > current.num_samples
}

/// The index of the configuration that is kept when the configurations are
/// gone through in order, each one replacing the kept one when it is
/// [`preferred`] to it.
pub open spec fn best_config(configs: Seq<ConfigTraits>) -> int
    decreases configs.len(),
{
    if configs.len() <= 1 {
        0
    } else {
        let kept = best_config(configs.drop_last());
        if preferred(configs.last(), configs[kept]) {
            configs.len() - 1
        } else {
            kept
        }
    }
}

/// The kept configuration is one of them.
pub proof fn lemma_best_config_in_range(configs: Seq<ConfigTraits>)
    requires
        configs.len() > 0,
    ensures
        0 <= best_config(configs) < configs.len(),
    decreases configs.len(),
{
    if configs.len() > 1 {
        lemma_best_config_in_range(configs.drop_last());
    }
}

/// Once a configuration is kept, none after it beats it: none has more samples,
/// and none supports transparency unless the kept one does.
pub proof fn lemma_best_config_unbeaten_later(configs: Seq<ConfigTraits>)
    requires
        configs.len() > 0,
    ensures
        forall|j: int|
            #![trigger configs[j]]
            best_config(configs) < j < configs.len() ==> configs[j].num_samples
                <= configs[best_config(configs)].num_samples && (configs[j].supports_transparency
                == Some(true) ==> configs[best_config(configs)].supports_transparency == Some(
                true,
            )),
    decreases configs.len(),
{
    if configs.len() > 1 {
        let prefix = configs.drop_last();
        lemma_best_config_unbeaten_later(prefix);
        lemma_best_config_in_range(prefix);
        let kept = best_config(prefix);
        assert(configs[kept] == prefix[kept]);
        assert forall|j: int|
            #![trigger configs[j]]
            best_config(configs) < j < configs.len() implies configs[j].num_samples
                <= configs[best_config(configs)].num_samples && (configs[j].supports_transparency
                == Some(true) ==> configs[best_config(configs)].supports_transparency == Some(
                true,
            )) by {
            if j < configs.len() - 1 {
                assert(configs[j] == prefix[j]);
            }
        }
    }
}

/// When the configuration kept so far supports transparency, one more
/// configuration replaces it exactly when it has more samples; when the kept
/// one does not, the new one replaces it exactly when it supports transparency
/// or has more samples. Otherwise the kept one stays.
pub proof fn lemma_best_config_step(configs: Seq<ConfigTraits>, candidate: ConfigTraits)
    requires
        configs.len() > 0,
    ensures
        configs[best_config(configs)].supports_transparency == Some(true) ==> (best_config(
            configs.push(candidate),
        ) == configs.len() <==> candidate.num_samples > configs[best_config(
            configs,
        )].num_samples),
        configs[best_config(configs)].supports_transparency != Some(true) ==> (best_config(
            configs.push(candidate),
        ) == configs.len() <==> (candidate.supports_transparency == Some(true)
            || candidate.num_samples > configs[best_config(configs)].num_samples)),
        best_config(configs.push(candidate)) == configs.len() || best_config(
            configs.push(candidate),
        ) == best_config(configs),
{
    lemma_best_config_in_range(configs);
    assert(configs.push(candidate).drop_last() =~= configs);
}

/// When all configurations agree on whether they support transparency, the
/// kept one is the first with the most samples.
pub proof fn lemma_best_config_most_samples(configs: Seq<ConfigTraits>)
    requires
        configs.len() > 0,
        forall|i: int, j: int|
            #![trigger configs[i], configs[j]]
            0 <= i < configs.len() && 0 <= j < configs.len() ==> (configs[i].supports_transparency
                == Some(true)) == (configs[j].supports_transparency == Some(true)),
    ensures
        0 <= best_config(configs) < configs.len(),
        forall|j: int|
            #![trigger configs[j]]
            0 <= j < configs.len() ==> configs[j].num_samples <= configs[best_config(
                configs,
            )].num_samples,
        forall|j: int|
            #![trigger configs[j]]
            0 <= j < best_config(configs) ==> configs[j].num_samples < configs[best_config(
                configs,
            )].num_samples,
    decreases configs.len(),
{
    lemma_best_config_in_range(configs);
    if configs.len() > 1 {
        let prefix = configs.drop_last();
        assert forall|i: int, j: int|
            #![trigger prefix[i], prefix[j]]
            0 <= i < prefix.len() && 0 <= j < prefix.len() implies (prefix[i].supports_transparency
            == Some(true)) == (prefix[j].supports_transparency == Some(true)) by {
            assert(configs[i] == prefix[i] && configs[j] == prefix[j]);
        }
        lemma_best_config_most_samples(prefix);
        let kept = best_config(prefix);
        assert(configs[kept] == prefix[kept]);
        let last = configs.len() - 1;
        assert((configs[last].supports_transparency == Some(true)) == (
        configs[kept].supports_transparency == Some(true)));
        assert forall|j: int| #![trigger configs[j]] 0 <= j < last implies configs[j] == prefix[j] by {}
    }
}

/// The index of the configuration to create the context with (see
/// [`best_config`]), or `None` when there is none.
pub fn pick_config(configs: &Vec<ConfigTraits>) -> (r: Option<usize>)
    ensures
        configs@.len() == 0 <==> r is None,
        r matches Some(i) ==> i == best_config(configs@),
        r matches Some(i) ==> forall|j: int|
            #![trigger configs@[j]]
            i < j < configs@.len() ==> configs@[j].num_samples <= configs@[i as int].num_samples && (
            configs@[j].supports_transparency == Some(true) ==> configs@[i as int].supports_transparency
                == Some(true)),
        r matches Some(i) ==> ((forall|j: int|
            #![trigger configs@[j]]
            0 <= j < configs@.len() ==> configs@[j].supports_transparency == Some(true)) ==> (
        forall|j: int|
            #![trigger configs@[j]]
            0 <= j < configs@.len() ==> configs@[j].num_samples <= configs@[i as int].num_samples)
            && (forall|j: int|
            #![trigger configs@[j]]
            0 <= j < i ==> configs@[j].num_samples < configs@[i as int].num_samples)),
{
    if configs.len() == 0 {
        return None;
    }
    let mut kept: usize = 0;
    let mut i: usize = 1;
    while i < configs.len()
        invariant
            1 <= i <= configs@.len(),
            kept < i,
            kept == best_config(configs@.take(i as int)),
        decreases configs@.len() - i,
    {
        let candidate = configs[i];
        let current = configs[kept];
        let transparency_check = candidate.supports_transparency.unwrap_or(false)
            && !current.supports_transparency.unwrap_or(false);
        assert(configs@.take(i + 1).drop_last() =~= configs@.take(i as int));
        if transparency_check || candidate.num_samples > current.num_samples {
            kept = i;
        }
        i = i + 1;
    }
    assert(configs@.take(configs@.len() as int) =~= configs@);
    proof {
        lemma_best_config_unbeaten_later(configs@);
        if forall|j: int|
            #![trigger configs@[j]]
            0 <= j < configs@.len() ==> configs@[j].supports_transparency == Some(true) {
            lemma_best_config_most_samples(configs@);
        }
    }
    Some(kept)
}

} // verus!
