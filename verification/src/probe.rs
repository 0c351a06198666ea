//! The text reports of the hardware probes: `nvidia-smi`, `rocm-smi`, `sysctl` and
//! `system_profiler`. The figures stay text here; the service reads them as numbers.
use vstd::prelude::*;

use crate::sse::strings_view;
use crate::text::{
    chars_of, contains_seq, first_index_of, is_whitespace, is_ws, lemma_first_index_of, lowercase, matches_at, replace,
    replace_spec, starts_with, str_contains, string_from_range, strip_prefixes, strip_prefixes_from,
    to_lowercase, trim, trim_bounds, trim_range, trim_spec,
};

verus! {

/// `l` without one trailing `\r`.
pub open spec fn strip_cr(l: Seq<char>) -> Seq<char> {
    if l.len() > 0 && l.last() == '\r' {
        l.drop_last()
    } else {
        l
    }
}

/// The lines of `s` as `str::lines` yields them: the pieces split at `\n`, each without
/// a `\r` before its `\n`; the piece after the last `\n` is a line when it is not empty.
pub open spec fn lines_spec(s: Seq<char>) -> Seq<Seq<char>>
    decreases s.len(),
{
    let k = first_index_of(s, '\n');
    if 0 <= k < s.len() {
        seq![strip_cr(s.take(k))] + lines_spec(s.skip(k + 1))
    } else if s.len() > 0 {
        seq![s]
    } else {
        seq![]
    }
}

/// The lines of `s` (`str::lines`), collected.
pub fn split_lines(s: &str) -> (r: Vec<String>)
    ensures
        strings_view(r@) == lines_spec(s@),
{
    let v = chars_of(s);
    let ghost whole = v@;
    let mut out: Vec<String> = Vec::new();
    let mut pos: usize = 0;
    assert(whole.skip(0) =~= whole);
    assert(strings_view(out@) =~= Seq::<Seq<char>>::empty());
    while pos < v.len()
        invariant
            v@ == whole,
            0 <= pos <= v.len(),
            strings_view(out@) + lines_spec(whole.skip(pos as int)) == lines_spec(whole),
        decreases v.len() - pos,
    {
        let mut k = pos;
        while k < v.len() && v[k] != '\n'
            invariant
                v@ == whole,
                pos <= k <= v.len(),
                forall|m: int| pos <= m < k ==> whole[m] != '\n',
            decreases v.len() - k,
        {
            k = k + 1;
        }
        let ghost t = whole.skip(pos as int);
        proof {
            lemma_first_index_of(t, '\n', k - pos);
        }
        let ghost before = strings_view(out@);
        if k == v.len() {
            let line = string_from_range(&v, pos, k);
            assert(t =~= whole.subrange(pos as int, k as int));
            assert(lines_spec(t) == seq![t]);
            out.push(line);
            assert(strings_view(out@) =~= before.push(line@));
            assert(lines_spec(whole.skip(k as int)) =~= Seq::<Seq<char>>::empty());
            assert(strings_view(out@) + lines_spec(whole.skip(k as int)) =~= before + lines_spec(t));
            pos = k;
        } else {
            let end = if k > pos && v[k - 1] == '\r' {
                k - 1
            } else {
                k
            };
            let line = string_from_range(&v, pos, end);
            assert(t.take(k - pos) =~= whole.subrange(pos as int, k as int));
            assert(line@ == strip_cr(t.take(k - pos))) by {
                if k > pos && whole[k - 1] == '\r' {
                    assert(whole.subrange(pos as int, k as int).drop_last() =~= whole.subrange(pos as int, k - 1));
                }
            }
            assert(t.skip(k - pos + 1) =~= whole.skip(k + 1));
            out.push(line);
            assert(strings_view(out@) =~= before.push(line@));
            assert(lines_spec(t) == seq![line@] + lines_spec(whole.skip(k + 1)));
            assert(strings_view(out@) + lines_spec(whole.skip(k + 1)) =~= before + lines_spec(t));
            pos = k + 1;
        }
    }
    assert(lines_spec(whole.skip(pos as int)) =~= Seq::<Seq<char>>::empty());
    assert(strings_view(out@) + Seq::<Seq<char>>::empty() =~= strings_view(out@));
    out
}

/// The GPU name and its memory figure, in MiB with the unit removed, on the first line
/// of `nvidia-smi --query-gpu=name,memory.total --format=csv,noheader`: the line is
/// cut at its first comma; none when there is no line or no comma.
pub open spec fn nvidia_fields_spec(out: Seq<char>) -> Option<(Seq<char>, Seq<char>)> {
    let ls = lines_spec(out);
    if ls.len() == 0 {
        None
    } else {
        let line = ls[0];
        let c = first_index_of(line, ',');
        if 0 <= c < line.len() {
            Some(
                (
                    trim_spec(line.take(c)),
                    replace_spec(replace_spec(trim_spec(line.skip(c + 1)), " MiB"@, ""@), "MiB"@, ""@),
                ),
            )
        } else {
            None
        }
    }
}

/// The GPU name and memory figure that `nvidia-smi` reports.
pub fn nvidia_fields(out: &str) -> (r: Option<(String, String)>)
    ensures
        match r {
            Some((n, m)) => nvidia_fields_spec(out@) == Some((n@, m@)),
            None => nvidia_fields_spec(out@) is None,
        },
{
    let lines = split_lines(out);
    if lines.len() == 0 {
        return None;
    }
    let line = chars_of(lines[0].as_str());
    assert(strings_view(lines@)[0] == lines@[0]@);
    let mut c: usize = 0;
    while c < line.len() && line[c] != ','
        invariant
            0 <= c <= line.len(),
            forall|m: int| 0 <= m < c ==> line@[m] != ',',
        decreases line.len() - c,
    {
        c = c + 1;
    }
    proof {
        lemma_first_index_of(line@, ',', c as int);
    }
    if c == line.len() {
        return None;
    }
    let (a, b) = trim_range(&line, 0, c);
    let name = string_from_range(&line, a, b);
    let (a2, b2) = trim_range(&line, c + 1, line.len());
    let mem = string_from_range(&line, a2, b2);
    let m1 = replace(mem.as_str(), " MiB", "");
    let m2 = replace(m1.as_str(), "MiB", "");
    assert(line@.subrange(0, c as int) =~= line@.take(c as int));
    assert(line@.subrange(c + 1, line.len() as int) =~= line@.skip(c + 1));
    Some((name, m2))
}

/// What follows the last `c` in `s` (`s.split(c).last()`); all of `s` when there is none.
pub open spec fn after_last(s: Seq<char>, c: char) -> Seq<char>
    decreases s.len(),
{
    let k = first_index_of(s, c);
    if 0 <= k < s.len() {
        after_last(s.skip(k + 1), c)
    } else {
        s
    }
}

/// Index of the first whitespace character of `s`, or `s.len()` when there is none.
pub open spec fn first_ws_index(s: Seq<char>) -> int
    decreases s.len(),
{
    if s.len() == 0 {
        0
    } else if is_ws(s[0]) {
        0
    } else {
        1 + first_ws_index(s.drop_first())
    }
}

proof fn lemma_first_ws_index(s: Seq<char>, j: int)
    requires
        0 <= j <= s.len(),
        forall|m: int| 0 <= m < j ==> !is_ws(#[trigger] s[m]),
        j == s.len() || is_ws(s[j]),
    ensures
        first_ws_index(s) == j,
    decreases j,
{
    if j > 0 {
        assert forall|m: int| 0 <= m < j - 1 implies !is_ws(#[trigger] s.drop_first()[m]) by {
            assert(s.drop_first()[m] == s[m + 1]);
        }
        lemma_first_ws_index(s.drop_first(), j - 1);
    }
}

/// A line of `rocm-smi --showmeminfo vram` that reports the total: it mentions
/// `vram total memory`, ignoring case.
pub open spec fn rocm_total_line(line: Seq<char>) -> bool {
    contains_seq(lowercase(line), "vram total memory"@)
}

/// The figure of a total line: the first word of the text after its last colon,
/// trimmed; none when that text is blank.
pub open spec fn rocm_figure(line: Seq<char>) -> Option<Seq<char>> {
    let t = trim_spec(after_last(line, ':'));
    if t.len() == 0 {
        None
    } else {
        Some(t.take(first_ws_index(t)))
    }
}

/// The figures of the total lines, in order.
pub open spec fn rocm_figures_spec(lines: Seq<Seq<char>>) -> Seq<Option<Seq<char>>>
    decreases lines.len(),
{
    if lines.len() == 0 {
        seq![]
    } else {
        rocm_figures_spec(lines.drop_last()) + if rocm_total_line(lines.last()) {
            seq![rocm_figure(lines.last())]
        } else {
            seq![]
        }
    }
}

/// An optional string by its characters.
pub open spec fn opt_view(o: Option<String>) -> Option<Seq<char>> {
    match o {
        Some(s) => Some(s@),
        None => None,
    }
}

/// The figure of a `rocm-smi` total line.
pub fn rocm_line_figure(line: &str) -> (r: Option<String>)
    ensures
        opt_view(r) == rocm_figure(line@),
{
    let v = chars_of(line);
    let ghost whole = v@;
    let mut start: usize = 0;
    let mut i: usize = 0;
    assert(whole.skip(0) =~= whole);
    while i < v.len()
        invariant
            v@ == whole,
            0 <= start <= i <= v.len(),
            after_last(whole, ':') == after_last(whole.skip(start as int), ':'),
            forall|m: int| start <= m < i ==> whole[m] != ':',
        decreases v.len() - i,
    {
        if v[i] == ':' {
            proof {
                let t = whole.skip(start as int);
                lemma_first_index_of(t, ':', i - start);
                assert(t.skip(i - start + 1) =~= whole.skip(i + 1));
            }
            start = i + 1;
        }
        i = i + 1;
    }
    proof {
        let t = whole.skip(start as int);
        lemma_first_index_of(t, ':', t.len() as int);
        assert(t =~= whole.subrange(start as int, v.len() as int));
    }
    let (a, b) = trim_range(&v, start, v.len());
    if a == b {
        return None;
    }
    let mut e = a;
    while e < b && !is_whitespace(v[e])
        invariant
            a <= e <= b,
            b <= v.len(),
            v@ == whole,
            forall|m: int| a <= m < e ==> !is_ws(#[trigger] whole[m]),
        decreases b - e,
    {
        e = e + 1;
    }
    proof {
        let t = whole.subrange(a as int, b as int);
        assert forall|m: int| 0 <= m < e - a implies !is_ws(#[trigger] t[m]) by {
            assert(t[m] == whole[a + m]);
        }
        if e < b {
            assert(t[e - a] == whole[e as int]);
        }
        lemma_first_ws_index(t, e - a);
        assert(t.take(e - a) =~= whole.subrange(a as int, e as int));
    }
    Some(string_from_range(&v, a, e))
}

/// The memory figures that `rocm-smi` reports, one for each total line, in order.
pub fn rocm_vram_figures(out: &str) -> (r: Vec<Option<String>>)
    ensures
        r@.map_values(|o: Option<String>| opt_view(o)) == rocm_figures_spec(lines_spec(out@)),
{
    let lines = split_lines(out);
    let ghost ls = strings_view(lines@);
    let mut figures: Vec<Option<String>> = Vec::new();
    let mut k: usize = 0;
    proof {
        reveal_strlit("vram total memory");
    }
    while k < lines.len()
        invariant
            0 <= k <= lines.len(),
            ls == strings_view(lines@),
            ls == lines_spec(out@),
            figures@.map_values(|o: Option<String>| opt_view(o)) == rocm_figures_spec(ls.take(k as int)),
        decreases lines.len() - k,
    {
        let ghost before = figures@;
        assert(ls.take(k + 1).drop_last() =~= ls.take(k as int));
        assert(ls.take(k + 1).last() == lines@[k as int]@);
        let lower = to_lowercase(lines[k].as_str());
        if str_contains(lower.as_str(), "vram total memory") {
            let f = rocm_line_figure(lines[k].as_str());
            figures.push(f);
            assert(figures@.map_values(|o: Option<String>| opt_view(o)) =~= before.map_values(
                |o: Option<String>| opt_view(o),
            ).push(opt_view(f)));
        }
        k = k + 1;
    }
    assert(ls.take(lines.len() as int) =~= ls);
    figures
}

/// The chip that `sysctl -n machdep.cpu.brand_string` names: its trimmed output, when
/// not empty.
pub open spec fn sysctl_chip_spec(out: Seq<char>) -> Option<Seq<char>> {
    let t = trim_spec(out);
    if t.len() > 0 {
        Some(t)
    } else {
        None
    }
}

/// The chip name in the output of `sysctl`.
pub fn sysctl_chip(out: &str) -> (r: Option<String>)
    ensures
        opt_view(r) == sysctl_chip_spec(out@),
{
    let t = trim(out);
    if chars_of(t.as_str()).len() > 0 {
        Some(t)
    } else {
        None
    }
}

/// The chip on the first line that, trimmed, starts with `Chip:`: what follows the
/// label, trimmed.
pub open spec fn profiler_chip_spec(lines: Seq<Seq<char>>) -> Option<Seq<char>>
    decreases lines.len(),
{
    if lines.len() == 0 {
        None
    } else {
        let t = trim_spec(lines[0]);
        if starts_with(t, "Chip:"@) {
            Some(trim_spec(strip_prefixes(t, "Chip:"@)))
        } else {
            profiler_chip_spec(lines.drop_first())
        }
    }
}

/// The text after `label` on a line that, trimmed, starts with it; trimmed again.
fn labelled_value(line: &str, label: &str) -> (r: Option<String>)
    ensures
        match r {
            Some(v) => starts_with(trim_spec(line@), label@) && v@ == trim_spec(
                strip_prefixes(trim_spec(line@), label@),
            ),
            None => !starts_with(trim_spec(line@), label@),
        },
{
    let v = chars_of(line);
    let p = chars_of(label);
    let (a, b) = trim_bounds(&v);
    let ghost t = v@.subrange(a as int, b as int);
    if p.len() <= b - a && matches_at(&v, &p, a) {
        assert(t.take(p.len() as int) =~= v@.subrange(a as int, a + p.len()));
        let s = strip_prefixes_from(&v, a, b, &p);
        let (c, d) = trim_range(&v, s, b);
        Some(string_from_range(&v, c, d))
    } else {
        proof {
            if starts_with(t, p@) {
                assert(t.take(p.len() as int) =~= v@.subrange(a as int, a + p.len()));
            }
        }
        None
    }
}

/// The chip name in `system_profiler SPHardwareDataType` output.
pub fn profiler_chip(out: &str) -> (r: Option<String>)
    ensures
        opt_view(r) == profiler_chip_spec(lines_spec(out@)),
{
    let lines = split_lines(out);
    let ghost ls = strings_view(lines@);
    let mut k: usize = 0;
    assert(ls.skip(0) =~= ls);
    while k < lines.len()
        invariant
            0 <= k <= lines.len(),
            ls == strings_view(lines@),
            ls == lines_spec(out@),
            profiler_chip_spec(ls) == profiler_chip_spec(ls.skip(k as int)),
        decreases lines.len() - k,
    {
        assert(ls.skip(k as int)[0] == lines@[k as int]@);
        assert(ls.skip(k as int).drop_first() =~= ls.skip(k + 1));
        if let Some(v) = labelled_value(lines[k].as_str(), "Chip:") {
            return Some(v);
        }
        k = k + 1;
    }
    None
}

/// What a line of `system_profiler SPDisplaysDataType` reports.
#[derive(Debug, Clone, Copy, PartialEq, Eq, Structural)]
pub enum DisplayKind {
    /// `Chipset Model:` and the GPU name.
    Chipset,
    /// A VRAM line with a figure in gigabytes.
    VramGb,
    /// A VRAM line with a figure in megabytes.
    VramMb,
    /// Anything else, including a VRAM line with neither unit.
    Other,
}

/// The VRAM labels, in the order they are tried.
pub open spec fn vram_labels() -> Seq<Seq<char>> {
    seq!["VRAM (Total):"@, "VRAM (Dynamic, Max):"@, "VRAM (Static):"@]
}

/// A VRAM value by its unit: `GB` before `MB`, the unit removed and the figure trimmed.
pub open spec fn vram_value(val: Seq<char>) -> (DisplayKind, Seq<char>) {
    if contains_seq(val, "GB"@) {
        (DisplayKind::VramGb, trim_spec(replace_spec(val, "GB"@, ""@)))
    } else if contains_seq(val, "MB"@) {
        (DisplayKind::VramMb, trim_spec(replace_spec(val, "MB"@, ""@)))
    } else {
        (DisplayKind::Other, seq![])
    }
}

/// What a display report line says: its trimmed text starts with `Chipset Model:` (the
/// name follows), or with the first VRAM label that fits (the value follows), or neither.
pub open spec fn display_line_spec(line: Seq<char>) -> (DisplayKind, Seq<char>) {
    let t = trim_spec(line);
    if starts_with(t, "Chipset Model:"@) {
        (DisplayKind::Chipset, trim_spec(strip_prefixes(t, "Chipset Model:"@)))
    } else if starts_with(t, vram_labels()[0]) {
        vram_value(trim_spec(strip_prefixes(t, vram_labels()[0])))
    } else if starts_with(t, vram_labels()[1]) {
        vram_value(trim_spec(strip_prefixes(t, vram_labels()[1])))
    } else if starts_with(t, vram_labels()[2]) {
        vram_value(trim_spec(strip_prefixes(t, vram_labels()[2])))
    } else {
        (DisplayKind::Other, seq![])
    }
}

fn vram_of(val: String) -> (r: (DisplayKind, String))
    ensures
        (r.0, r.1@) == vram_value(val@),
{
    if str_contains(val.as_str(), "GB") {
        let s = replace(val.as_str(), "GB", "");
        (DisplayKind::VramGb, trim(s.as_str()))
    } else if str_contains(val.as_str(), "MB") {
        let s = replace(val.as_str(), "MB", "");
        (DisplayKind::VramMb, trim(s.as_str()))
    } else {
        (DisplayKind::Other, String::new())
    }
}

/// Reads one line of the display report.
pub fn display_line(line: &str) -> (r: (DisplayKind, String))
    ensures
        (r.0, r.1@) == display_line_spec(line@),
{
    if let Some(name) = labelled_value(line, "Chipset Model:") {
        return (DisplayKind::Chipset, name);
    }
    if let Some(v) = labelled_value(line, "VRAM (Total):") {
        return vram_of(v);
    }
    if let Some(v) = labelled_value(line, "VRAM (Dynamic, Max):") {
        return vram_of(v);
    }
    if let Some(v) = labelled_value(line, "VRAM (Static):") {
        return vram_of(v);
    }
    (DisplayKind::Other, String::new())
}

} // verus!
