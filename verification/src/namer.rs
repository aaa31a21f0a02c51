//! The file namer: derives a default output path from an input path and a
//! target extension when no explicit output is given, and classifies a
//! palette source file by its extension.
//!
//! Paths are handled as character sequences with `/` as the directory
//! separator and `.` introducing the extension.

use vstd::prelude::*;
use crate::error::ToolError;

verus! {

/// The largest index at which `c` occurs in `s`, or -1 when it does not
/// occur.
pub open spec fn last_pos(s: Seq<char>, c: char) -> int
    decreases s.len(),
{
    if s.len() == 0 {
        -1
    } else if s.last() == c {
        s.len() - 1
    } else {
        last_pos(s.drop_last(), c)
    }
}

/// `last_pos` names the last occurrence: every later position differs, and
/// -1 means no position holds `c` at all.
pub proof fn lemma_last_pos_props(s: Seq<char>, c: char)
    ensures
        last_pos(s, c) == -1 ==> forall|j: int| 0 <= j < s.len() ==> s[j] != c,
        last_pos(s, c) != -1 ==> {
            &&& 0 <= last_pos(s, c) < s.len()
            &&& s[last_pos(s, c)] == c
            &&& forall|j: int| last_pos(s, c) < j < s.len() ==> s[j] != c
        },
    decreases s.len(),
{
    if s.len() == 0 {
    } else if s.last() == c {
    } else {
        let rest = s.drop_last();
        lemma_last_pos_props(rest, c);
        assert(forall|j: int| 0 <= j < rest.len() ==> s[j] == rest[j]);
    }
}

/// The file-name part of a path: everything after the last separator.
pub open spec fn file_name_part(p: Seq<char>) -> Seq<char> {
    p.subrange(last_pos(p, '/') + 1, p.len() as int)
}

/// Whether a default output path can be derived from `p`: the path must
/// have a resolvable parent directory and a non-empty file name.
pub open spec fn output_path_derivable(p: Seq<char>) -> bool {
    &&& last_pos(p, '/') >= 0
    &&& file_name_part(p).len() > 0
}

/// The stem of a file name: the part before the final dot, or the whole
/// name when there is no dot or the name starts with its only leading dot.
pub open spec fn stem_of(name: Seq<char>) -> Seq<char> {
    let dot = last_pos(name, '.');
    if dot <= 0 {
        name
    } else {
        name.subrange(0, dot)
    }
}

/// The derived output path: the input's directory part, its file stem, a
/// dot, and the target extension.
pub open spec fn derived_output_path(input: Seq<char>, ext: Seq<char>) -> Seq<char> {
    let sep = last_pos(input, '/');
    input.subrange(0, sep + 1) + stem_of(file_name_part(input)) + seq!['.'] + ext
}

/// The extension of a path's file name: the part after the final dot, when
/// the dot is neither absent nor the name's first character.
pub open spec fn extension_of(p: Seq<char>) -> Option<Seq<char>> {
    let name = file_name_part(p);
    let dot = last_pos(name, '.');
    if dot <= 0 {
        None
    } else {
        Some(name.subrange(dot + 1, name.len() as int))
    }
}

/// Where a palette may be read from: an indexed-image file (`ici`, `ica`)
/// or a standalone swatch file (`pal`, `jasc`).
#[derive(PartialEq, Eq, Structural, Debug, Clone, Copy)]
pub enum PaletteSourceKind {
    IndexedImage,
    Swatch,
}

/// The extensions naming an indexed-image palette source.
pub open spec fn is_indexed_ext(e: Seq<char>) -> bool {
    e == seq!['i', 'c', 'i'] || e == seq!['i', 'c', 'a']
}

/// The extensions naming a swatch palette source.
pub open spec fn is_swatch_ext(e: Seq<char>) -> bool {
    e == seq!['p', 'a', 'l'] || e == seq!['j', 'a', 's', 'c']
}

/// Scans `v` from the end for `c`.
fn rfind(v: &Vec<char>, c: char) -> (r: Option<usize>)
    ensures
        match r {
            Some(i) => i < v@.len() && i == last_pos(v@, c),
            None => last_pos(v@, c) == -1,
        },
{
    proof {
        lemma_last_pos_props(v@, c);
    }
    let mut i: usize = v.len();
    while i > 0
        invariant
            i <= v@.len(),
            forall|j: int| i <= j < v@.len() ==> v@[j] != c,
            last_pos(v@, c) == -1 ==> forall|j: int| 0 <= j < v@.len() ==> v@[j] != c,
            last_pos(v@, c) != -1 ==> {
                &&& 0 <= last_pos(v@, c) < v@.len()
                &&& v@[last_pos(v@, c)] == c
                &&& forall|j: int| last_pos(v@, c) < j < v@.len() ==> v@[j] != c
            },
        decreases i,
    {
        i -= 1;
        if v[i] == c {
            return Some(i);
        }
    }
    None
}

/// Appends `src[from..to]` onto `dst`.
fn append_range(dst: &mut Vec<char>, src: &Vec<char>, from: usize, to: usize)
    requires
        from <= to <= src@.len(),
    ensures
        final(dst)@ == old(dst)@ + src@.subrange(from as int, to as int),
{
    let mut i: usize = from;
    while i < to
        invariant
            from <= i <= to <= src@.len(),
            dst@ == old(dst)@ + src@.subrange(from as int, i as int),
        decreases to - i,
    {
        dst.push(src[i]);
        proof {
            assert(src@.subrange(from as int, i + 1) =~= src@.subrange(
                from as int,
                i as int,
            ).push(src@[i as int]));
        }
        i += 1;
    }
}

/// Derives the output file name for an operation.
///
/// An explicitly given output path is returned unchanged. Otherwise the
/// input path must have a parent directory and a non-empty file name; the
/// result is `parent/stem.ext`. An input with neither fails with
/// `InvalidOutputPath`.
pub fn create_file_name(input: &Vec<char>, output: Option<Vec<char>>, ext: &Vec<char>) -> (r:
    Result<Vec<char>, ToolError>)
    ensures
        match r {
            Ok(p) => match output {
                Some(o) => p@ == o@,
                None => output_path_derivable(input@) && p@ == derived_output_path(input@, ext@),
            },
            Err(ToolError::InvalidOutputPath) => output is None && !output_path_derivable(input@),
            Err(_) => false,
        },
{
    if let Some(o) = output {
        return Ok(o);
    }
    let sep: usize = match rfind(input, '/') {
        Some(i) => i,
        None => {
            return Err(ToolError::InvalidOutputPath);
        },
    };
    let n: usize = input.len();
    assert(sep < n);
    if sep + 1 >= n {
        proof {
            assert(file_name_part(input@).len() == 0);
        }
        return Err(ToolError::InvalidOutputPath);
    }
    // The file name is everything after the last separator; its stem ends
    // at its last dot, unless the dot is absent or leads the name.
    let mut name: Vec<char> = Vec::new();
    append_range(&mut name, input, sep + 1, input.len());
    proof {
        assert(name@ =~= file_name_part(input@));
    }
    let stem_end: usize = match rfind(&name, '.') {
        Some(d) if d > 0 => d,
        _ => name.len(),
    };
    let mut result: Vec<char> = Vec::new();
    append_range(&mut result, input, 0, sep + 1);
    append_range(&mut result, &name, 0, stem_end);
    result.push('.');
    append_range(&mut result, ext, 0, ext.len());
    proof {
        assert(name@.subrange(0, stem_end as int) =~= stem_of(file_name_part(input@)));
        assert(ext@.subrange(0, ext@.len() as int) =~= ext@);
        assert(result@ =~= derived_output_path(input@, ext@));
    }
    Ok(result)
}


/// Whether `v` holds exactly the three characters given.
fn ext_is3(v: &Vec<char>, a: char, b: char, c: char) -> (r: bool)
    ensures
        r == (v@ == seq![a, b, c]),
{
    if v.len() == 3 && v[0] == a && v[1] == b && v[2] == c {
        assert(v@ =~= seq![a, b, c]);
        true
    } else {
        assert(v@ != seq![a, b, c]);
        false
    }
}

/// Whether `v` holds exactly the four characters given.
fn ext_is4(v: &Vec<char>, a: char, b: char, c: char, d: char) -> (r: bool)
    ensures
        r == (v@ == seq![a, b, c, d]),
{
    if v.len() == 4 && v[0] == a && v[1] == b && v[2] == c && v[3]
        == d {
        assert(v@ =~= seq![a, b, c, d]);
        true
    } else {
        assert(v@ != seq![a, b, c, d]);
        false
    }
}

/// Classifies a palette source file by its extension: `ici` and `ica` name
/// indexed-image files, `pal` and `jasc` name swatch files, and anything
/// else — a missing extension included — is an unsupported source format.
pub fn classify_palette_source(path: &Vec<char>) -> (r: Result<PaletteSourceKind, ToolError>)
    ensures
        match r {
            Ok(PaletteSourceKind::IndexedImage) => extension_of(path@) matches Some(e)
                && is_indexed_ext(e),
            Ok(PaletteSourceKind::Swatch) => extension_of(path@) matches Some(e) && is_swatch_ext(
                e,
            ),
            Err(ToolError::UnsupportedSourceFormat(p)) => p@ == path@ && match extension_of(
                path@,
            ) {
                Some(e) => !is_indexed_ext(e) && !is_swatch_ext(e),
                None => true,
            },
            Err(_) => false,
        },
{
    let total: usize = path.len();
    let name_start: usize = match rfind(path, '/') {
        Some(i) => {
            assert(i < total);
            i + 1
        },
        None => 0,
    };
    let mut name: Vec<char> = Vec::new();
    append_range(&mut name, path, name_start, path.len());
    proof {
        assert(name@ =~= file_name_part(path@));
    }
    let mut unsupported = true;
    let mut kind = PaletteSourceKind::IndexedImage;
    match rfind(&name, '.') {
        Some(d) if d > 0 => {
            let mut ext: Vec<char> = Vec::new();
            append_range(&mut ext, &name, d + 1, name.len());
            proof {
                assert(extension_of(path@) matches Some(e) && e =~= ext@);
            }
            if ext_is3(&ext, 'i', 'c', 'i') || ext_is3(&ext, 'i', 'c', 'a') {
                unsupported = false;
                kind = PaletteSourceKind::IndexedImage;
            } else if ext_is3(&ext, 'p', 'a', 'l') || ext_is4(&ext, 'j', 'a', 's', 'c') {
                unsupported = false;
                kind = PaletteSourceKind::Swatch;
            }
        },
        _ => {
            proof {
                assert(extension_of(path@) is None);
            }
        },
    }
    if unsupported {
        let mut copy: Vec<char> = Vec::new();
        append_range(&mut copy, path, 0, path.len());
        proof {
            assert(copy@ =~= path@);
        }
        return Err(ToolError::UnsupportedSourceFormat(copy));
    }
    Ok(kind)
}

} // verus!
