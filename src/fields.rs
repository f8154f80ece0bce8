use vstd::prelude::*;
use crate::error::MergeError;
use crate::names::{ModuleSpec, ModuleSpecView, path_is_valid, strs, valid_path};

verus! {

/// One `name: value` pair of a module entry in object form.
pub enum Field {
    /// Whether the path has a leading `::`, and its segments.
    Module(bool, Vec<String>),
    Prefix(String),
    FilePath(String),
    /// Whether the path has a leading `::`, and its segments.
    Wrapper(bool, Vec<String>),
}

/// A field as plain sequences.
pub enum FieldView {
    Module(bool, Seq<Seq<char>>),
    Prefix(Seq<char>),
    FilePath(Seq<char>),
    Wrapper(bool, Seq<Seq<char>>),
}

impl View for Field {
    type V = FieldView;

    open spec fn view(&self) -> FieldView {
        match self {
            Field::Module(a, p) => FieldView::Module(*a, strs(p@)),
            Field::Prefix(s) => FieldView::Prefix(s@),
            Field::FilePath(s) => FieldView::FilePath(s@),
            Field::Wrapper(a, p) => FieldView::Wrapper(*a, strs(p@)),
        }
    }
}

/// The views of a list of fields.
pub open spec fn field_views(fs: Seq<Field>) -> Seq<FieldView> {
    fs.map_values(|f: Field| f@)
}

/// Which field `f` sets: 0 module, 1 prefix, 2 file path, 3 wrapper.
pub open spec fn field_kind(f: FieldView) -> int {
    match f {
        FieldView::Module(..) => 0,
        FieldView::Prefix(_) => 1,
        FieldView::FilePath(_) => 2,
        FieldView::Wrapper(..) => 3,
    }
}

/// Two fields of `fs` set the same thing.
pub open spec fn has_duplicate(fs: Seq<FieldView>) -> bool {
    exists|i: int, j: int|
        0 <= i < j < fs.len() && field_kind(#[trigger] fs[i]) == field_kind(#[trigger] fs[j])
}

/// The last field of `fs` that sets `k`.
pub open spec fn last_of_kind(fs: Seq<FieldView>, k: int) -> Option<FieldView>
    decreases fs.len(),
{
    if fs.len() == 0 {
        None
    } else if field_kind(fs.last()) == k {
        Some(fs.last())
    } else {
        last_of_kind(fs.drop_last(), k)
    }
}

/// The path held by a module or wrapper field.
pub open spec fn path_value(f: Option<FieldView>) -> Option<Seq<Seq<char>>> {
    match f {
        Some(FieldView::Module(_, p)) => Some(p),
        Some(FieldView::Wrapper(_, p)) => Some(p),
        _ => None,
    }
}

/// Whether the path of a module or wrapper field has a leading `::`; false
/// where there is no such field.
pub open spec fn rooted_value(f: Option<FieldView>) -> bool {
    match f {
        Some(FieldView::Module(a, _)) => a,
        Some(FieldView::Wrapper(a, _)) => a,
        _ => false,
    }
}

/// The string held by a prefix or file path field.
pub open spec fn str_value(f: Option<FieldView>) -> Option<Seq<char>> {
    match f {
        Some(FieldView::Prefix(s)) => Some(s),
        Some(FieldView::FilePath(s)) => Some(s),
        _ => None,
    }
}

/// The module specification that the fields `fs` of one entry make.
pub open spec fn spec_from_fields(fs: Seq<FieldView>) -> Result<ModuleSpecView, MergeError> {
    if has_duplicate(fs) {
        Err(MergeError::DuplicateField)
    } else if last_of_kind(fs, 0) is None || !valid_path(path_value(last_of_kind(fs, 0))->Some_0) {
        Err(MergeError::MissingRequiredField)
    } else {
        Ok(
            ModuleSpecView {
                module: path_value(last_of_kind(fs, 0))->Some_0,
                module_rooted: rooted_value(last_of_kind(fs, 0)),
                prefix: str_value(last_of_kind(fs, 1)),
                file_path: str_value(last_of_kind(fs, 2)),
                wrapper: path_value(last_of_kind(fs, 3)),
                wrapper_rooted: rooted_value(last_of_kind(fs, 3)),
            },
        )
    }
}

/// A field that sets `k` stands in `fs` exactly where `last_of_kind` finds one.
pub proof fn lemma_last_of_kind(fs: Seq<FieldView>, k: int)
    ensures
        last_of_kind(fs, k) is Some <==> exists|j: int| 0 <= j < fs.len() && field_kind(#[trigger] fs[j]) == k,
        last_of_kind(fs, k) is Some ==> field_kind(last_of_kind(fs, k)->Some_0) == k,
    decreases fs.len(),
{
    if fs.len() > 0 {
        lemma_last_of_kind(fs.drop_last(), k);
        if field_kind(fs.last()) != k {
            assert forall|j: int| 0 <= j < fs.len() && field_kind(#[trigger] fs[j]) == k implies 0 <= j
                < fs.drop_last().len() && field_kind(fs.drop_last()[j]) == k by {}
        }
    }
}

impl ModuleSpec {
    /// Makes the specification of a module entry written as an object.
    ///
    /// Fails where two fields set the same thing, else where no field
    /// gives a module path of at least one segment, none of them empty.
    pub fn from_fields(fields: Vec<Field>) -> (r: Result<ModuleSpec, MergeError>)
        ensures
            match spec_from_fields(field_views(fields@)) {
                Ok(v) => r is Ok && r->Ok_0@ == v && r->Ok_0.wf(),
                Err(e) => r == Err::<ModuleSpec, MergeError>(e),
            },
    {
        let ghost fs = field_views(fields@);
        let mut module: Option<Vec<String>> = None;
        let mut prefix: Option<String> = None;
        let mut file_path: Option<String> = None;
        let mut wrapper: Option<Vec<String>> = None;
        let mut module_rooted = false;
        let mut wrapper_rooted = false;
        let mut rest = fields;
        let ghost all = rest@;
        let ghost n = all.len();
        proof {
            assert(all.skip(0) =~= all);
        }
        while rest.len() > 0
            invariant
                fs == field_views(all),
                all == fields@,
                n == all.len(),
                rest@.len() <= n,
                rest@ == all.skip(n - rest@.len()),
                !has_duplicate(fs.take(n - rest@.len())),
                path_value(last_of_kind(fs.take(n - rest@.len()), 0)) == match module {
                    Some(p) => Some(strs(p@)),
                    None => None::<Seq<Seq<char>>>,
                },
                last_of_kind(fs.take(n - rest@.len()), 0) is Some ==> module is Some,
                str_value(last_of_kind(fs.take(n - rest@.len()), 1)) == match prefix {
                    Some(s) => Some(s@),
                    None => None::<Seq<char>>,
                },
                last_of_kind(fs.take(n - rest@.len()), 1) is Some ==> prefix is Some,
                str_value(last_of_kind(fs.take(n - rest@.len()), 2)) == match file_path {
                    Some(s) => Some(s@),
                    None => None::<Seq<char>>,
                },
                last_of_kind(fs.take(n - rest@.len()), 2) is Some ==> file_path is Some,
                path_value(last_of_kind(fs.take(n - rest@.len()), 3)) == match wrapper {
                    Some(p) => Some(strs(p@)),
                    None => None::<Seq<Seq<char>>>,
                },
                last_of_kind(fs.take(n - rest@.len()), 3) is Some ==> wrapper is Some,
                rooted_value(last_of_kind(fs.take(n - rest@.len()), 0)) == module_rooted,
                rooted_value(last_of_kind(fs.take(n - rest@.len()), 3)) == wrapper_rooted,
            decreases rest@.len(),
        {
            let ghost i = n - rest@.len();
            let ghost pre = fs.take(i);
            let ghost next = fs.take(i + 1);
            proof {
                assert(fs.len() == n);
                assert(rest@[0] == all[i]);
            }
            let f = rest.remove(0);
            proof {
                assert(f@ == fs[i]);
                assert(next.drop_last() =~= pre);
                assert(next.last() == f@);
                assert(rest@ =~= all.skip(i + 1));
                lemma_last_of_kind(pre, field_kind(f@));
            }
            let seen = match &f {
                Field::Module(..) => module.is_some(),
                Field::Prefix(_) => prefix.is_some(),
                Field::FilePath(_) => file_path.is_some(),
                Field::Wrapper(..) => wrapper.is_some(),
            };
            if seen {
                proof {
                    let j = choose|j: int| 0 <= j < pre.len() && field_kind(#[trigger] pre[j]) == field_kind(f@);
                    assert(fs[j] == pre[j]);
                    assert(fs[i] == f@);
                    assert(0 <= j < i < fs.len() && field_kind(fs[j]) == field_kind(fs[i]));
                    assert(has_duplicate(fs));
                }
                return Err(MergeError::DuplicateField);
            }
            proof {
                assert forall|a: int, b: int|
                    0 <= a < b < next.len() && field_kind(#[trigger] next[a]) == field_kind(
                        #[trigger] next[b],
                    ) implies false by {
                    if b == i {
                        assert(pre[a] == next[a]);
                    } else {
                        assert(pre[a] == next[a] && pre[b] == next[b]);
                    }
                }
            }
            match f {
                Field::Module(a, p) => {
                    module_rooted = a;
                    module = Some(p);
                },
                Field::Prefix(s) => {
                    prefix = Some(s);
                },
                Field::FilePath(s) => {
                    file_path = Some(s);
                },
                Field::Wrapper(a, p) => {
                    wrapper_rooted = a;
                    wrapper = Some(p);
                },
            }
        }
        proof {
            assert(fs.take(n as int) =~= fs);
            lemma_last_of_kind(fs, 0);
        }
        match module {
            None => Err(MergeError::MissingRequiredField),
            Some(module) => {
                if !path_is_valid(&module) {
                    return Err(MergeError::MissingRequiredField);
                }
                Ok(ModuleSpec { module, module_rooted, prefix, file_path, wrapper, wrapper_rooted })
            },
        }
    }
}

} // verus!
