use vstd::prelude::*;

verus! {

/// One entry of the module list.
///
/// `module` is the symbolic path of the instruction module, one segment per
/// element (`foo::instructions` is `["foo", "instructions"]`).
#[derive(Debug)]
pub struct ModuleSpec {
    pub module: Vec<String>,
    /// The module path is written with a leading `::`.
    pub module_rooted: bool,
    /// Name prefix of the relays; `Some("")` means no prefix, `None` means
    /// the first segment of `module`.
    pub prefix: Option<String>,
    /// Source file of the module, relative to the project root.
    pub file_path: Option<String>,
    /// Path of a wrapper macro that performs the forwarding call.
    pub wrapper: Option<Vec<String>>,
    /// The wrapper path is written with a leading `::`.
    pub wrapper_rooted: bool,
}

/// The views of a list of strings.
pub open spec fn strs(v: Seq<String>) -> Seq<Seq<char>> {
    v.map_values(|x: String| x@)
}

/// A path of at least one segment, none of them empty.
pub open spec fn valid_path(p: Seq<Seq<char>>) -> bool {
    &&& p.len() > 0
    &&& forall|k: int| 0 <= k < p.len() ==> (#[trigger] p[k]).len() > 0
}

/// Whether `p` is a path of at least one segment, none of them empty.
pub fn path_is_valid(p: &Vec<String>) -> (r: bool)
    ensures
        r == valid_path(strs(p@)),
{
    if p.len() == 0 {
        return false;
    }
    let mut i: usize = 0;
    while i < p.len()
        invariant
            i <= p@.len(),
            forall|k: int| 0 <= k < i ==> (#[trigger] strs(p@)[k]).len() > 0,
        decreases p.len() - i,
    {
        if p[i].as_str().unicode_len() == 0 {
            assert(strs(p@)[i as int].len() == 0);
            return false;
        }
        i += 1;
    }
    true
}

/// A module specification as plain sequences.
pub struct ModuleSpecView {
    pub module: Seq<Seq<char>>,
    pub module_rooted: bool,
    pub prefix: Option<Seq<char>>,
    pub file_path: Option<Seq<char>>,
    pub wrapper: Option<Seq<Seq<char>>>,
    pub wrapper_rooted: bool,
}

/// The view of an optional string.
pub open spec fn opt_str(o: Option<String>) -> Option<Seq<char>> {
    match o {
        Some(s) => Some(s@),
        None => None,
    }
}

/// The view of an optional path.
pub open spec fn opt_path(o: Option<Vec<String>>) -> Option<Seq<Seq<char>>> {
    match o {
        Some(p) => Some(strs(p@)),
        None => None,
    }
}

impl View for ModuleSpec {
    type V = ModuleSpecView;

    open spec fn view(&self) -> ModuleSpecView {
        ModuleSpecView {
            module: strs(self.module@),
            module_rooted: self.module_rooted,
            prefix: opt_str(self.prefix),
            file_path: opt_str(self.file_path),
            wrapper: opt_path(self.wrapper),
            wrapper_rooted: self.wrapper_rooted,
        }
    }
}

impl ModuleSpec {
    /// The module path has at least one segment, and none is empty.
    pub open spec fn wf(&self) -> bool {
        valid_path(strs(self.module@))
    }

    /// The prefix that relays of this module get.
    pub open spec fn effective_prefix(&self) -> Seq<char>
        recommends
            self.wf(),
    {
        match self.prefix {
            Some(p) => p@,
            None => self.module@[0]@,
        }
    }
}

/// Name of the relay for instruction `name` under `prefix`.
pub open spec fn relay_ident(prefix: Seq<char>, name: Seq<char>) -> Seq<char> {
    if prefix.len() == 0 {
        name
    } else {
        prefix + seq!['_'] + name
    }
}

/// The name that the relay of instruction `ix_name` of module `spec` gets.
pub fn relay_name(spec: &ModuleSpec, ix_name: &str) -> (r: String)
    requires
        spec.wf(),
    ensures
        r@ == relay_ident(spec.effective_prefix(), ix_name@),
{
    let prefix: &String = match &spec.prefix {
        Some(p) => p,
        None => &spec.module[0],
    };
    if prefix.as_str().unicode_len() == 0 {
        String::from_str(ix_name)
    } else {
        let mut r = prefix.clone();
        r.append("_");
        r.append(ix_name);
        proof {
            reveal_strlit("_");
        }
        r
    }
}

/// `segs` written as `/seg1/seg2/...`.
pub open spec fn slash_joined(segs: Seq<Seq<char>>) -> Seq<char>
    decreases segs.len(),
{
    if segs.len() == 0 {
        Seq::empty()
    } else {
        slash_joined(segs.drop_last()) + seq!['/'] + segs.last()
    }
}

/// The file that holds module `segs` by convention: `./src/a/b.rs` for `a::b`.
pub open spec fn conventional_file_path(segs: Seq<Seq<char>>) -> Seq<char> {
    seq!['.', '/', 's', 'r', 'c'] + slash_joined(segs) + seq!['.', 'r', 's']
}

impl ModuleSpec {
    /// The source file of this module, relative to the project root.
    pub open spec fn spec_file_path(&self) -> Seq<char> {
        match self.file_path {
            Some(f) => f@,
            None => conventional_file_path(strs(self.module@)),
        }
    }

    /// The source file of this module: `file_path` where it is given, else
    /// the conventional file of `module`.
    pub fn get_file_path(&self) -> (r: String)
        ensures
            r@ == self.spec_file_path(),
    {
        match &self.file_path {
            Some(f) => f.clone(),
            None => {
                let ghost segs = strs(self.module@);
                let mut p = String::from_str("./src");
                let mut i: usize = 0;
                proof {
                    reveal_strlit("./src");
                    assert(segs.take(0) =~= Seq::<Seq<char>>::empty());
                }
                while i < self.module.len()
                    invariant
                        i <= self.module@.len(),
                        segs == strs(self.module@),
                        p@ == seq!['.', '/', 's', 'r', 'c'] + slash_joined(segs.take(i as int)),
                    decreases self.module.len() - i,
                {
                    p.append("/");
                    p.append(self.module[i].as_str());
                    proof {
                        reveal_strlit("/");
                        assert(segs.take(i + 1).drop_last() =~= segs.take(i as int));
                        assert(segs.take(i + 1).last() == self.module@[i as int]@);
                        assert(p@ =~= seq!['.', '/', 's', 'r', 'c'] + slash_joined(segs.take(i + 1)));
                    }
                    i += 1;
                }
                p.append(".rs");
                proof {
                    reveal_strlit(".rs");
                    assert(segs.take(i as int) =~= segs);
                }
                p
            },
        }
    }
}

/// Where the module of `spec` is read from, under the project root `root`.
pub fn resolve_location(root: &str, spec: &ModuleSpec) -> (r: String)
    ensures
        r@ == root@ + seq!['/'] + spec.spec_file_path(),
{
    let mut r = String::from_str(root);
    r.append("/");
    let f = spec.get_file_path();
    r.append(f.as_str());
    proof {
        reveal_strlit("/");
    }
    r
}

} // verus!
