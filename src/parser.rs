use vstd::prelude::*;
use crate::error::MergeError;
use crate::fields::{Field, FieldView, field_views, spec_from_fields};
use crate::lexer::{
    skip_ws, word, punct, lit_str, is_ident_start, path_segment_ok, skip_ws_exec, word_exec, punct_exec,
    lit_str_exec, is_ident_start_char, is_path_segment,
};
use crate::names::{ModuleSpec, ModuleSpecView, strs, valid_path};

verus! {

/// A `::` follows after white space at `i`.
pub open spec fn at_path_sep(s: Seq<char>, i: int) -> bool {
    let j = skip_ws(s, i);
    0 <= j && j + 1 < s.len() && s[j] == ':' && s[j + 1] == ':'
}

/// The further segments of a path whose segments so far are `segs`, and
/// where the path ends.
pub open spec fn path_rest(s: Seq<char>, i: int, segs: Seq<Seq<char>>) -> Result<
    (Seq<Seq<char>>, int),
    MergeError,
>
    decreases s.len() - i,
{
    if at_path_sep(s, i) {
        match word(s, skip_ws(s, i) + 2) {
            Ok((w, e)) => if !path_segment_ok(w) {
                Err(MergeError::Syntax { pos: skip_ws(s, skip_ws(s, i) + 2) as usize })
            } else if i < e <= s.len() {
                path_rest(s, e, segs.push(w))
            } else {
                Ok((segs, i))
            },
            Err(x) => Err(x),
        }
    } else {
        Ok((segs, i))
    }
}

/// The path `a::b::c` or `::a::b` after white space at `i`: whether it has
/// the leading `::`, its segments and its end. Each segment is one that syn
/// accepts.
pub open spec fn path(s: Seq<char>, i: int) -> Result<(bool, Seq<Seq<char>>, int), MergeError> {
    let rooted = at_path_sep(s, i);
    let start = if rooted {
        skip_ws(s, i) + 2
    } else {
        i
    };
    match word(s, start) {
        Ok((w, e)) => if path_segment_ok(w) {
            match path_rest(s, e, seq![w]) {
                Ok((p, f)) => Ok((rooted, p, f)),
                Err(x) => Err(x),
            }
        } else {
            Err(MergeError::Syntax { pos: skip_ws(s, start) as usize })
        },
        Err(x) => Err(x),
    }
}

/// The field `name: value` after white space at `i`, and where it ends.
pub open spec fn field(s: Seq<char>, i: int) -> Result<(FieldView, int), MergeError> {
    match word(s, i) {
        Err(x) => Err(x),
        Ok((name, e)) => match punct(s, e, ':') {
            Err(x) => Err(x),
            Ok(c) => if name == "file_path"@ {
                match lit_str(s, c) {
                    Ok((v, f)) => Ok((FieldView::FilePath(v), f)),
                    Err(x) => Err(x),
                }
            } else if name == "prefix"@ {
                match lit_str(s, c) {
                    Ok((v, f)) => Ok((FieldView::Prefix(v), f)),
                    Err(x) => Err(x),
                }
            } else if name == "module"@ {
                match path(s, c) {
                    Ok((a, p, f)) => Ok((FieldView::Module(a, p), f)),
                    Err(x) => Err(x),
                }
            } else if name == "wrapper"@ {
                match path(s, c) {
                    Ok((a, p, f)) => Ok((FieldView::Wrapper(a, p), f)),
                    Err(x) => Err(x),
                }
            } else {
                Err(MergeError::UnknownField)
            },
        },
    }
}

/// The fields of an object from `i` on, after those in `acc`, up to and
/// including the closing brace; a comma may follow the last one.
pub open spec fn fields_rest(s: Seq<char>, i: int, acc: Seq<FieldView>) -> Result<
    (Seq<FieldView>, int),
    MergeError,
>
    decreases s.len() - i,
{
    let j = skip_ws(s, i);
    if 0 <= j < s.len() && s[j] == '}' {
        Ok((acc, j + 1))
    } else {
        match field(s, i) {
            Err(x) => Err(x),
            Ok((f, e)) => {
                let k = skip_ws(s, e);
                if 0 <= k < s.len() && s[k] == ',' && i < k + 1 {
                    fields_rest(s, k + 1, acc.push(f))
                } else if 0 <= k < s.len() && s[k] == '}' {
                    Ok((acc.push(f), k + 1))
                } else {
                    Err(MergeError::Syntax { pos: k as usize })
                }
            },
        }
    }
}

/// One entry of the module list after white space at `i`: a bare path or
/// an object, and where it ends.
pub open spec fn entry(s: Seq<char>, i: int) -> Result<(ModuleSpecView, int), MergeError> {
    let j = skip_ws(s, i);
    if 0 <= j < s.len() && is_ident_start(s[j]) {
        match path(s, i) {
            Ok((a, p, e)) => Ok(
                (
                    ModuleSpecView {
                        module: p,
                        module_rooted: a,
                        prefix: None,
                        file_path: None,
                        wrapper: None,
                        wrapper_rooted: false,
                    },
                    e,
                ),
            ),
            Err(x) => Err(x),
        }
    } else if 0 <= j < s.len() && s[j] == '{' {
        match fields_rest(s, j + 1, Seq::empty()) {
            Ok((fs, e)) => match spec_from_fields(fs) {
                Ok(v) => Ok((v, e)),
                Err(x) => Err(x),
            },
            Err(x) => Err(x),
        }
    } else {
        Err(MergeError::Syntax { pos: j as usize })
    }
}

/// The entries of the list from `i` on, after those in `acc`, up to and
/// including the closing bracket; a comma may follow the last one.
pub open spec fn entries_rest(s: Seq<char>, i: int, acc: Seq<ModuleSpecView>) -> Result<
    (Seq<ModuleSpecView>, int),
    MergeError,
>
    decreases s.len() - i,
{
    let j = skip_ws(s, i);
    if 0 <= j < s.len() && s[j] == ']' {
        Ok((acc, j + 1))
    } else {
        match entry(s, i) {
            Err(x) => Err(x),
            Ok((m, e)) => {
                let k = skip_ws(s, e);
                if 0 <= k < s.len() && s[k] == ',' && i < k + 1 {
                    entries_rest(s, k + 1, acc.push(m))
                } else if 0 <= k < s.len() && s[k] == ']' {
                    Ok((acc.push(m), k + 1))
                } else {
                    Err(MergeError::Syntax { pos: k as usize })
                }
            },
        }
    }
}

/// The module list that the argument text `s` gives:
/// `modules = [entry, ...]`, with nothing after the closing bracket.
pub open spec fn spec_parse_modules(s: Seq<char>) -> Result<Seq<ModuleSpecView>, MergeError> {
    match word(s, 0) {
        Err(x) => Err(x),
        Ok((w, e)) => if w != "modules"@ {
            Err(MergeError::ExpectedModules)
        } else {
            match punct(s, e, '=') {
                Err(x) => Err(x),
                Ok(a) => match punct(s, a, '[') {
                    Err(x) => Err(x),
                    Ok(b) => match entries_rest(s, b, Seq::empty()) {
                        Err(x) => Err(x),
                        Ok((specs, c)) => if skip_ws(s, c) == s.len() {
                            Ok(specs)
                        } else {
                            Err(MergeError::Syntax { pos: skip_ws(s, c) as usize })
                        },
                    },
                },
            }
        },
    }
}

/// The views of a list of module specifications.
pub open spec fn spec_views(v: Seq<ModuleSpec>) -> Seq<ModuleSpecView> {
    v.map_values(|m: ModuleSpec| m@)
}

/// The view of a parsed path and its end.
pub open spec fn path_result(r: Result<(Vec<String>, usize), MergeError>) -> Result<
    (Seq<Seq<char>>, int),
    MergeError,
> {
    match r {
        Ok((p, e)) => Ok((strs(p@), e as int)),
        Err(x) => Err(x),
    }
}

/// The view of a parsed path with its leading `::` flag, and its end.
pub open spec fn rooted_path_result(r: Result<(bool, Vec<String>, usize), MergeError>) -> Result<
    (bool, Seq<Seq<char>>, int),
    MergeError,
> {
    match r {
        Ok((a, p, e)) => Ok((a, strs(p@), e as int)),
        Err(x) => Err(x),
    }
}

/// The view of a parsed field and its end.
pub open spec fn field_result(r: Result<(Field, usize), MergeError>) -> Result<(FieldView, int), MergeError> {
    match r {
        Ok((f, e)) => Ok((f@, e as int)),
        Err(x) => Err(x),
    }
}

/// The view of parsed fields and their end.
pub open spec fn fields_result(r: Result<(Vec<Field>, usize), MergeError>) -> Result<
    (Seq<FieldView>, int),
    MergeError,
> {
    match r {
        Ok((f, e)) => Ok((field_views(f@), e as int)),
        Err(x) => Err(x),
    }
}

/// The view of a parsed entry and its end.
pub open spec fn entry_result(r: Result<(ModuleSpec, usize), MergeError>) -> Result<
    (ModuleSpecView, int),
    MergeError,
> {
    match r {
        Ok((m, e)) => Ok((m@, e as int)),
        Err(x) => Err(x),
    }
}

/// The view of parsed entries and their end.
pub open spec fn entries_result(r: Result<(Vec<ModuleSpec>, usize), MergeError>) -> Result<
    (Seq<ModuleSpecView>, int),
    MergeError,
> {
    match r {
        Ok((v, e)) => Ok((spec_views(v@), e as int)),
        Err(x) => Err(x),
    }
}

/// Every specification of `v` has a module path of at least one segment.
pub open spec fn all_wf(v: Seq<ModuleSpec>) -> bool {
    forall|k: int| 0 <= k < v.len() ==> (#[trigger] v[k]).wf()
}

/// Exec form of `path_rest`.
fn path_rest_exec(t: &str, n: usize, i: usize, segs: Vec<String>) -> (r: Result<(Vec<String>, usize), MergeError>)
    requires
        n == t@.len(),
        i <= n,
        valid_path(strs(segs@)),
    ensures
        path_result(r) == path_rest(t@, i as int, strs(segs@)),
        r is Ok ==> i <= r->Ok_0.1 <= n && valid_path(strs(r->Ok_0.0@)),
    decreases n - i,
{
    let j = skip_ws_exec(t, n, i);
    if j < n && j + 1 < n && t.get_char(j) == ':' && t.get_char(j + 1) == ':' {
        match word_exec(t, n, j + 2) {
            Ok((w, e)) => {
                if !is_path_segment(w.as_str()) {
                    let p = skip_ws_exec(t, n, j + 2);
                    return Err(MergeError::Syntax { pos: p });
                }
                let ghost before = segs@;
                let mut segs = segs;
                segs.push(w);
                proof {
                    assert(strs(segs@) =~= strs(before).push(w@));
                    assert forall|k: int| 0 <= k < strs(segs@).len() implies (#[trigger] strs(segs@)[k]).len()
                        > 0 by {
                        if k < before.len() {
                            assert(strs(segs@)[k] == strs(before)[k]);
                        }
                    }
                }
                path_rest_exec(t, n, e, segs)
            },
            Err(x) => Err(x),
        }
    } else {
        Ok((segs, i))
    }
}

/// Exec form of `path`.
fn path_exec(t: &str, n: usize, i: usize) -> (r: Result<(bool, Vec<String>, usize), MergeError>)
    requires
        n == t@.len(),
        i <= n,
    ensures
        rooted_path_result(r) == path(t@, i as int),
        r is Ok ==> i <= r->Ok_0.2 <= n && valid_path(strs(r->Ok_0.1@)),
{
    let j = skip_ws_exec(t, n, i);
    let rooted = j < n && j + 1 < n && t.get_char(j) == ':' && t.get_char(j + 1) == ':';
    let start = if rooted {
        j + 2
    } else {
        i
    };
    match word_exec(t, n, start) {
        Ok((w, e)) => {
            if !is_path_segment(w.as_str()) {
                let p = skip_ws_exec(t, n, start);
                return Err(MergeError::Syntax { pos: p });
            }
            let mut segs: Vec<String> = Vec::new();
            segs.push(w);
            proof {
                assert(strs(segs@) =~= seq![w@]);
            }
            match path_rest_exec(t, n, e, segs) {
                Ok((p, f)) => Ok((rooted, p, f)),
                Err(x) => Err(x),
            }
        },
        Err(x) => Err(x),
    }
}

/// Exec form of `field`.
fn field_exec(t: &str, n: usize, i: usize) -> (r: Result<(Field, usize), MergeError>)
    requires
        n == t@.len(),
        i <= n,
    ensures
        field_result(r) == field(t@, i as int),
        r is Ok ==> i <= r->Ok_0.1 <= n,
{
    let (name, e) = match word_exec(t, n, i) {
        Ok(x) => x,
        Err(x) => return Err(x),
    };
    let c = match punct_exec(t, n, e, ':') {
        Ok(c) => c,
        Err(x) => return Err(x),
    };
    let file_path = String::from_str("file_path");
    let prefix = String::from_str("prefix");
    let module = String::from_str("module");
    let wrapper = String::from_str("wrapper");
    if name == file_path {
        match lit_str_exec(t, n, c) {
            Ok((v, f)) => Ok((Field::FilePath(v), f)),
            Err(x) => Err(x),
        }
    } else if name == prefix {
        match lit_str_exec(t, n, c) {
            Ok((v, f)) => Ok((Field::Prefix(v), f)),
            Err(x) => Err(x),
        }
    } else if name == module {
        match path_exec(t, n, c) {
            Ok((a, p, f)) => Ok((Field::Module(a, p), f)),
            Err(x) => Err(x),
        }
    } else if name == wrapper {
        match path_exec(t, n, c) {
            Ok((a, p, f)) => Ok((Field::Wrapper(a, p), f)),
            Err(x) => Err(x),
        }
    } else {
        Err(MergeError::UnknownField)
    }
}

/// Exec form of `fields_rest`.
fn fields_rest_exec(t: &str, n: usize, i: usize, acc: Vec<Field>) -> (r: Result<(Vec<Field>, usize), MergeError>)
    requires
        n == t@.len(),
        i <= n,
    ensures
        fields_result(r) == fields_rest(t@, i as int, field_views(acc@)),
        r is Ok ==> i <= r->Ok_0.1 <= n,
    decreases n - i,
{
    let j = skip_ws_exec(t, n, i);
    if j < n && t.get_char(j) == '}' {
        return Ok((acc, j + 1));
    }
    let (f, e) = match field_exec(t, n, i) {
        Ok(x) => x,
        Err(x) => return Err(x),
    };
    let k = skip_ws_exec(t, n, e);
    let ghost before = acc@;
    let mut acc = acc;
    acc.push(f);
    proof {
        assert(field_views(acc@) =~= field_views(before).push(f@));
    }
    if k < n && t.get_char(k) == ',' {
        fields_rest_exec(t, n, k + 1, acc)
    } else if k < n && t.get_char(k) == '}' {
        Ok((acc, k + 1))
    } else {
        Err(MergeError::Syntax { pos: k })
    }
}

/// Exec form of `entry`.
fn entry_exec(t: &str, n: usize, i: usize) -> (r: Result<(ModuleSpec, usize), MergeError>)
    requires
        n == t@.len(),
        i <= n,
    ensures
        entry_result(r) == entry(t@, i as int),
        r is Ok ==> i <= r->Ok_0.1 <= n && r->Ok_0.0.wf(),
{
    let j = skip_ws_exec(t, n, i);
    if j < n && is_ident_start_char(t.get_char(j)) {
        match path_exec(t, n, i) {
            Ok((module_rooted, module, e)) => Ok(
                (ModuleSpec { module, module_rooted, prefix: None, file_path: None, wrapper: None, wrapper_rooted: false }, e),
            ),
            Err(x) => Err(x),
        }
    } else if j < n && t.get_char(j) == '{' {
        let empty: Vec<Field> = Vec::new();
        proof {
            assert(field_views(empty@) =~= Seq::<FieldView>::empty());
        }
        let (fields, e) = match fields_rest_exec(t, n, j + 1, empty) {
            Ok(x) => x,
            Err(x) => return Err(x),
        };
        match ModuleSpec::from_fields(fields) {
            Ok(m) => Ok((m, e)),
            Err(x) => Err(x),
        }
    } else {
        Err(MergeError::Syntax { pos: j })
    }
}

/// Exec form of `entries_rest`.
fn entries_rest_exec(t: &str, n: usize, i: usize, acc: Vec<ModuleSpec>) -> (r: Result<
    (Vec<ModuleSpec>, usize),
    MergeError,
>)
    requires
        n == t@.len(),
        i <= n,
        all_wf(acc@),
    ensures
        entries_result(r) == entries_rest(t@, i as int, spec_views(acc@)),
        r is Ok ==> i <= r->Ok_0.1 <= n && all_wf(r->Ok_0.0@),
    decreases n - i,
{
    let j = skip_ws_exec(t, n, i);
    if j < n && t.get_char(j) == ']' {
        return Ok((acc, j + 1));
    }
    let (m, e) = match entry_exec(t, n, i) {
        Ok(x) => x,
        Err(x) => return Err(x),
    };
    let k = skip_ws_exec(t, n, e);
    let ghost before = acc@;
    let mut acc = acc;
    acc.push(m);
    proof {
        assert(spec_views(acc@) =~= spec_views(before).push(m@));
    }
    if k < n && t.get_char(k) == ',' {
        entries_rest_exec(t, n, k + 1, acc)
    } else if k < n && t.get_char(k) == ']' {
        Ok((acc, k + 1))
    } else {
        Err(MergeError::Syntax { pos: k })
    }
}

/// Parses the argument list `modules = [entry, ...]` into module
/// specifications, in list order.
///
/// An entry is a path (`a::b`) or an object with the fields `module`
/// (a path, required), `file_path` and `prefix` (string literals) and
/// `wrapper` (a path). A comma may follow the last entry or field.
pub fn parse_modules(text: &str) -> (r: Result<Vec<ModuleSpec>, MergeError>)
    ensures
        match spec_parse_modules(text@) {
            Ok(v) => r is Ok && spec_views(r->Ok_0@) == v && all_wf(r->Ok_0@),
            Err(x) => r == Err::<Vec<ModuleSpec>, MergeError>(x),
        },
{
    let n = text.unicode_len();
    let (w, e) = match word_exec(text, n, 0) {
        Ok(x) => x,
        Err(x) => return Err(x),
    };
    let modules = String::from_str("modules");
    if !(w == modules) {
        return Err(MergeError::ExpectedModules);
    }
    let a = match punct_exec(text, n, e, '=') {
        Ok(a) => a,
        Err(x) => return Err(x),
    };
    let b = match punct_exec(text, n, a, '[') {
        Ok(b) => b,
        Err(x) => return Err(x),
    };
    proof {
        assert(spec_views(Seq::<ModuleSpec>::empty()) =~= Seq::<ModuleSpecView>::empty());
    }
    let (specs, c) = match entries_rest_exec(text, n, b, Vec::new()) {
        Ok(x) => x,
        Err(x) => return Err(x),
    };
    let d = skip_ws_exec(text, n, c);
    if d == n {
        Ok(specs)
    } else {
        Err(MergeError::Syntax { pos: d })
    }
}

} // verus!
