//! The unsafety census of one crate: what the syntax walk reports, and how it is counted.

use vstd::prelude::*;

verus! {

/// A construct of Rust source that the census looks at, as the syntax walk reports it.
pub enum SyntaxNode {
    /// An `impl` block; `is_unsafe` for `unsafe impl`.
    ImplBlock { is_unsafe: bool },
    /// A free function; `has_abi` when it carries an `extern "..."` ABI.
    FnItem { is_unsafe: bool, has_abi: bool },
    /// A function inside an `impl` block.
    ImplFn { is_unsafe: bool, has_abi: bool },
    /// A function declared inside an `extern` block.
    ForeignFn,
    /// An item of an `extern` block that the parser kept as raw tokens,
    /// with the identifiers that stand at its top level.
    ForeignVerbatim { idents: Vec<String> },
    /// A module; `is_unsafe` for `unsafe mod`.
    Module { is_unsafe: bool },
    /// A trait; `is_unsafe` for `unsafe trait`.
    Trait { is_unsafe: bool },
    /// An `unsafe { .. }` block.
    UnsafeBlock,
}

/// The seven counters of a census, as unbounded numbers.
pub struct Counts {
    pub unsafe_traits: nat,
    pub unsafe_exprs: nat,
    pub unsafe_impls: nat,
    pub unsafe_funcs: nat,
    pub unsafe_mods: nat,
    pub ffi_export_funcs: nat,
    pub ffi_import_funcs: nat,
}

impl Counts {
    pub open spec fn zero() -> Counts {
        Counts {
            unsafe_traits: 0,
            unsafe_exprs: 0,
            unsafe_impls: 0,
            unsafe_funcs: 0,
            unsafe_mods: 0,
            ffi_export_funcs: 0,
            ffi_import_funcs: 0,
        }
    }

    pub open spec fn add(self, other: Counts) -> Counts {
        Counts {
            unsafe_traits: self.unsafe_traits + other.unsafe_traits,
            unsafe_exprs: self.unsafe_exprs + other.unsafe_exprs,
            unsafe_impls: self.unsafe_impls + other.unsafe_impls,
            unsafe_funcs: self.unsafe_funcs + other.unsafe_funcs,
            unsafe_mods: self.unsafe_mods + other.unsafe_mods,
            ffi_export_funcs: self.ffi_export_funcs + other.ffi_export_funcs,
            ffi_import_funcs: self.ffi_import_funcs + other.ffi_import_funcs,
        }
    }

    /// Every counter is at most the one of `other`.
    pub open spec fn le(self, other: Counts) -> bool {
        &&& self.unsafe_traits <= other.unsafe_traits
        &&& self.unsafe_exprs <= other.unsafe_exprs
        &&& self.unsafe_impls <= other.unsafe_impls
        &&& self.unsafe_funcs <= other.unsafe_funcs
        &&& self.unsafe_mods <= other.unsafe_mods
        &&& self.ffi_export_funcs <= other.ffi_export_funcs
        &&& self.ffi_import_funcs <= other.ffi_import_funcs
    }

    /// Every counter fits in a `u32`.
    pub open spec fn fits(self) -> bool {
        &&& self.unsafe_traits <= u32::MAX
        &&& self.unsafe_exprs <= u32::MAX
        &&& self.unsafe_impls <= u32::MAX
        &&& self.unsafe_funcs <= u32::MAX
        &&& self.unsafe_mods <= u32::MAX
        &&& self.ffi_export_funcs <= u32::MAX
        &&& self.ffi_import_funcs <= u32::MAX
    }
}

/// Whether one of the identifiers is the keyword `fn`: the item declares a function.
pub open spec fn declares_fn(idents: Seq<String>) -> bool {
    exists|i: int| 0 <= i < idents.len() && #[trigger] idents[i]@ == "fn"@
}

/// Whether `f` stands at position `i` of `s` and `n` right after it.
pub open spec fn fn_at(s: Seq<char>, i: int) -> bool {
    0 <= i && i + 1 < s.len() && s[i] == 'f' && s[i + 1] == 'n'
}

/// Whether the characters `f`, `n` stand next to each other somewhere in `s`.
pub open spec fn mentions_fn(s: Seq<char>) -> bool {
    exists|i: int| #[trigger] fn_at(s, i)
}

/// How many of the identifiers hold the text `fn`.
pub open spec fn fn_ident_count(idents: Seq<String>) -> nat
    decreases idents.len(),
{
    if idents.len() == 0 {
        0
    } else {
        fn_ident_count(idents.drop_last()) + if mentions_fn(idents.last()@) {
            1nat
        } else {
            0nat
        }
    }
}

/// How many functions an item kept as raw tokens stands for: one when it declares a
/// function (a `safe fn`), whatever its other identifiers are; otherwise one for each
/// identifier that holds the text `fn`.
pub open spec fn verbatim_fn_count(idents: Seq<String>) -> nat {
    if declares_fn(idents) {
        1
    } else {
        fn_ident_count(idents)
    }
}

pub open spec fn flag(b: bool) -> nat {
    if b {
        1
    } else {
        0
    }
}

/// What one construct adds to the counters.
///
/// A function imported from a foreign library counts as an unsafe function too,
/// whether or not it is marked `unsafe`; so does what an item that the parser kept as
/// raw tokens stands for (see `verbatim_fn_count`).
pub open spec fn node_counts(node: SyntaxNode) -> Counts {
    let z = Counts::zero();
    match node {
        SyntaxNode::ImplBlock { is_unsafe } => Counts { unsafe_impls: flag(is_unsafe), ..z },
        SyntaxNode::FnItem { is_unsafe, has_abi } => Counts {
            unsafe_funcs: flag(is_unsafe),
            ffi_export_funcs: flag(has_abi),
            ..z
        },
        SyntaxNode::ImplFn { is_unsafe, has_abi } => Counts {
            unsafe_funcs: flag(is_unsafe),
            ffi_export_funcs: flag(has_abi),
            ..z
        },
        SyntaxNode::ForeignFn => Counts { unsafe_funcs: 1, ffi_import_funcs: 1, ..z },
        SyntaxNode::ForeignVerbatim { idents } => {
            let k = verbatim_fn_count(idents@);
            Counts { unsafe_funcs: k, ffi_import_funcs: k, ..z }
        },
        SyntaxNode::Module { is_unsafe } => Counts { unsafe_mods: flag(is_unsafe), ..z },
        SyntaxNode::Trait { is_unsafe } => Counts { unsafe_traits: flag(is_unsafe), ..z },
        SyntaxNode::UnsafeBlock => Counts { unsafe_exprs: 1, ..z },
    }
}

/// What a sequence of constructs adds to the counters.
pub open spec fn tally(nodes: Seq<SyntaxNode>) -> Counts
    decreases nodes.len(),
{
    if nodes.len() == 0 {
        Counts::zero()
    } else {
        tally(nodes.drop_last()).add(node_counts(nodes.last()))
    }
}

/// What the constructs of several source files add to the counters.
pub open spec fn tally_files(files: Seq<Vec<SyntaxNode>>) -> Counts
    decreases files.len(),
{
    if files.len() == 0 {
        Counts::zero()
    } else {
        tally_files(files.drop_last()).add(tally(files.last()@))
    }
}

/// Why the census of a crate failed.
#[derive(Debug)]
pub enum AnalyzeError {
    /// The crate's directory held no Rust source file.
    NoEntries { crate_name: String },
    /// A source file is not a Rust file that the parser accepts.
    Unparsable,
}

impl AnalyzeError {
    /// The message that describes the error.
    pub fn message(&self) -> (msg: String)
        ensures
            msg@ == match self {
                AnalyzeError::NoEntries { crate_name } => "No entries found for crate: "@
                    + crate_name@,
                AnalyzeError::Unparsable => "Source file does not parse."@,
            },
    {
        match self {
            AnalyzeError::NoEntries { crate_name } => {
                let mut msg = String::from_str("No entries found for crate: ");
                msg.append(crate_name.as_str());
                msg
            },
            AnalyzeError::Unparsable => String::from_str("Source file does not parse."),
        }
    }
}

/// The census of one crate: its name and seven counters.
#[derive(Debug)]
pub struct CrateData {
    crate_name: String,
    unsafe_traits: u32,
    unsafe_exprs: u32,
    unsafe_impls: u32,
    unsafe_funcs: u32,
    unsafe_mods: u32,
    ffi_export_funcs: u32,
    ffi_import_funcs: u32,
}

/// The abstract value of a census.
pub struct CensusView {
    pub name: Seq<char>,
    pub counts: Counts,
}

impl View for CrateData {
    type V = CensusView;

    closed spec fn view(&self) -> CensusView {
        CensusView {
            name: self.crate_name@,
            counts: Counts {
                unsafe_traits: self.unsafe_traits as nat,
                unsafe_exprs: self.unsafe_exprs as nat,
                unsafe_impls: self.unsafe_impls as nat,
                unsafe_funcs: self.unsafe_funcs as nat,
                unsafe_mods: self.unsafe_mods as nat,
                ffi_export_funcs: self.ffi_export_funcs as nat,
                ffi_import_funcs: self.ffi_import_funcs as nat,
            },
        }
    }
}

/// Tells whether an identifier holds the text `fn`.
pub fn ident_mentions_fn(ident: &str) -> (found: bool)
    ensures
        found == mentions_fn(ident@),
{
    broadcast use vstd::string::group_string_axioms;

    let mut prev_f = false;
    let ghost mut idx: int = 0;
    for c in it: ident.chars()
        invariant
            it.seq() == ident@,
            idx == it.index(),
            prev_f == (idx > 0 && ident@[idx - 1] == 'f'),
            forall|j: int| j + 1 < idx ==> !#[trigger] fn_at(ident@, j),
    {
        if prev_f && c == 'n' {
            assert(fn_at(ident@, idx - 1));
            return true;
        }
        prev_f = c == 'f';
        proof {
            idx = idx + 1;
        }
    }
    false
}

/// Counts the identifiers that hold the text `fn`.
pub fn count_fn_idents(idents: &Vec<String>) -> (count: usize)
    ensures
        count == fn_ident_count(idents@),
        count <= idents@.len(),
{
    let mut count: usize = 0;
    let mut i: usize = 0;
    while i < idents.len()
        invariant
            i <= idents@.len(),
            count == fn_ident_count(idents@.take(i as int)),
            count <= i,
        decreases idents@.len() - i,
    {
        assert(idents@.take(i + 1).drop_last() =~= idents@.take(i as int));
        if ident_mentions_fn(idents[i].as_str()) {
            count = count + 1;
        }
        i = i + 1;
    }
    assert(idents@.take(i as int) =~= idents@);
    count
}

/// How many functions an item kept as raw tokens stands for.
pub fn verbatim_fns(idents: &Vec<String>) -> (count: usize)
    ensures
        count == verbatim_fn_count(idents@),
{
    if has_fn_keyword(idents) {
        1
    } else {
        count_fn_idents(idents)
    }
}

/// Tells whether the keyword `fn` stands among the identifiers of an item.
pub fn has_fn_keyword(idents: &Vec<String>) -> (found: bool)
    ensures
        found == declares_fn(idents@),
{
    let keyword = String::from_str("fn");
    let mut k: usize = 0;
    while k < idents.len()
        invariant
            k <= idents@.len(),
            keyword@ == "fn"@,
            forall|i: int| 0 <= i < k ==> #[trigger] idents@[i]@ != "fn"@,
        decreases idents@.len() - k,
    {
        if idents[k] == keyword {
            return true;
        }
        k = k + 1;
    }
    false
}

/// Adding what a prefix of the constructs adds never exceeds adding what all of them add.
proof fn lemma_tally_prefix_le(nodes: Seq<SyntaxNode>, j: int)
    requires
        0 <= j <= nodes.len(),
    ensures
        tally(nodes.take(j)).le(tally(nodes)),
    decreases nodes.len(),
{
    if j < nodes.len() {
        assert(nodes.drop_last().take(j) =~= nodes.take(j));
        lemma_tally_prefix_le(nodes.drop_last(), j);
    } else {
        assert(nodes.take(j) =~= nodes);
    }
}

proof fn lemma_tally_files_prefix_le(files: Seq<Vec<SyntaxNode>>, i: int)
    requires
        0 <= i <= files.len(),
    ensures
        tally_files(files.take(i)).le(tally_files(files)),
    decreases files.len(),
{
    if i < files.len() {
        assert(files.drop_last().take(i) =~= files.take(i));
        lemma_tally_files_prefix_le(files.drop_last(), i);
    } else {
        assert(files.take(i) =~= files);
    }
}

proof fn lemma_tally_step(nodes: Seq<SyntaxNode>, j: int)
    requires
        0 <= j < nodes.len(),
    ensures
        tally(nodes.take(j + 1)) == tally(nodes.take(j)).add(node_counts(nodes[j])),
{
    assert(nodes.take(j + 1).drop_last() =~= nodes.take(j));
}

proof fn lemma_tally_files_step(files: Seq<Vec<SyntaxNode>>, i: int)
    requires
        0 <= i < files.len(),
    ensures
        tally_files(files.take(i + 1)) == tally_files(files.take(i)).add(tally(files[i]@)),
{
    assert(files.take(i + 1).drop_last() =~= files.take(i));
}

/// Counting two runs of constructs one after the other gives the same counters as
/// counting them joined: the census does not depend on how the walk is split up.
pub proof fn law_tally_concat(a: Seq<SyntaxNode>, b: Seq<SyntaxNode>)
    ensures
        tally(a + b) == tally(a).add(tally(b)),
    decreases b.len(),
{
    if b.len() == 0 {
        assert(a + b =~= a);
    } else {
        assert((a + b).drop_last() =~= a + b.drop_last());
        law_tally_concat(a, b.drop_last());
    }
}

proof fn lemma_tally_files_flat_alt(files: Seq<Vec<SyntaxNode>>)
    ensures
        tally_files(files) == tally(files.map_values(|f: Vec<SyntaxNode>| f@).flatten_alt()),
    decreases files.len(),
{
    let m = files.map_values(|f: Vec<SyntaxNode>| f@);
    if files.len() == 0 {
        assert(m.flatten_alt() =~= Seq::<SyntaxNode>::empty());
    } else {
        assert(m.drop_last() =~= files.drop_last().map_values(|f: Vec<SyntaxNode>| f@));
        lemma_tally_files_flat_alt(files.drop_last());
        law_tally_concat(m.drop_last().flatten_alt(), m.last());
    }
}

/// Counting the source files of a crate one by one gives the same counters as
/// counting all their constructs in one run.
pub proof fn law_files_tally_flat(files: Seq<Vec<SyntaxNode>>)
    ensures
        tally_files(files) == tally(files.map_values(|f: Vec<SyntaxNode>| f@).flatten()),
{
    lemma_tally_files_flat_alt(files);
    files.map_values(|f: Vec<SyntaxNode>| f@).lemma_flatten_and_flatten_alt_are_equivalent();
}

/// The order in which the walk reports constructs does not change the counters.
pub proof fn law_tally_order(a: Seq<SyntaxNode>, b: Seq<SyntaxNode>)
    ensures
        tally(a + b) == tally(b + a),
{
    law_tally_concat(a, b);
    law_tally_concat(b, a);
}

/// A construct that is not marked `unsafe`, has no ABI and touches no foreign code
/// changes no counter.
pub proof fn law_safe_constructs_count_nothing()
    ensures
        node_counts(SyntaxNode::ImplBlock { is_unsafe: false }) == Counts::zero(),
        node_counts(SyntaxNode::FnItem { is_unsafe: false, has_abi: false }) == Counts::zero(),
        node_counts(SyntaxNode::ImplFn { is_unsafe: false, has_abi: false }) == Counts::zero(),
        node_counts(SyntaxNode::Module { is_unsafe: false }) == Counts::zero(),
        node_counts(SyntaxNode::Trait { is_unsafe: false }) == Counts::zero(),
{
}

/// Marking an `impl` block, a module or a trait `unsafe`, and every `unsafe { .. }`
/// block, adds exactly one to its own counter and nothing to any other.
pub proof fn law_unsafe_marks_count_once()
    ensures
        node_counts(SyntaxNode::ImplBlock { is_unsafe: true }) == (Counts {
            unsafe_impls: 1,
            ..Counts::zero()
        }),
        node_counts(SyntaxNode::Module { is_unsafe: true }) == (Counts {
            unsafe_mods: 1,
            ..Counts::zero()
        }),
        node_counts(SyntaxNode::Trait { is_unsafe: true }) == (Counts {
            unsafe_traits: 1,
            ..Counts::zero()
        }),
        node_counts(SyntaxNode::UnsafeBlock) == (Counts { unsafe_exprs: 1, ..Counts::zero() }),
        node_counts(SyntaxNode::ForeignFn) == (Counts {
            unsafe_funcs: 1,
            ffi_import_funcs: 1,
            ..Counts::zero()
        }),
{
}

/// A method in an `impl` block counts as a free function does: one unsafe function
/// exactly when it is marked `unsafe`, one exported function exactly when it has an
/// ABI, and nothing else.
pub proof fn law_methods_count_like_functions(is_unsafe: bool, has_abi: bool)
    ensures
        node_counts(SyntaxNode::ImplFn { is_unsafe, has_abi }) == node_counts(
            SyntaxNode::FnItem { is_unsafe, has_abi },
        ),
        node_counts(SyntaxNode::ImplFn { is_unsafe, has_abi }) == (Counts {
            unsafe_funcs: if is_unsafe {
                1nat
            } else {
                0nat
            },
            ffi_export_funcs: if has_abi {
                1nat
            } else {
                0nat
            },
            ..Counts::zero()
        }),
{
}

/// Recording one more construct adds what that construct counts to what was there:
/// in particular an unsafe method adds one unsafe function to any census.
pub proof fn law_tally_push(nodes: Seq<SyntaxNode>, node: SyntaxNode)
    ensures
        tally(nodes.push(node)) == tally(nodes).add(node_counts(node)),
        tally(nodes.push(SyntaxNode::ImplFn { is_unsafe: true, has_abi: false })).unsafe_funcs
            == tally(nodes).unsafe_funcs + 1,
        tally(seq![node]) == node_counts(node),
{
    assert(nodes.push(node).drop_last() =~= nodes);
    assert(nodes.push(SyntaxNode::ImplFn { is_unsafe: true, has_abi: false }).drop_last()
        =~= nodes);
    let one = seq![node];
    assert(one.drop_last() =~= Seq::<SyntaxNode>::empty());
    assert(one.last() == node);
    assert(tally(one.drop_last()) == Counts::zero());
    assert(tally(one) == tally(one.drop_last()).add(node_counts(one.last())));
}

/// An identifier holds `fn` exactly when `fn` stands somewhere in it: any text with
/// `fn` in it holds it, and a text without the letter `f` does not.
pub proof fn law_mentions_fn(a: Seq<char>, b: Seq<char>, s: Seq<char>)
    ensures
        mentions_fn(a + "fn"@ + b),
        (forall|k: int| 0 <= k < s.len() ==> s[k] != 'f') ==> !mentions_fn(s),
        (forall|k: int| 0 <= k < s.len() ==> s[k] != 'n') ==> !mentions_fn(s),
{
    reveal_strlit("fn");
    let t = a + "fn"@ + b;
    assert(t[a.len() as int] == 'f');
    assert(t[a.len() as int + 1] == 'n');
    assert(fn_at(t, a.len() as int));
}

/// An item kept as raw tokens that declares no function counts one function for
/// each identifier that holds `fn`, and none when no identifier does.
pub proof fn law_verbatim_without_fn_keyword(idents: Seq<String>)
    requires
        forall|i: int| 0 <= i < idents.len() ==> #[trigger] idents[i]@ != "fn"@,
    ensures
        verbatim_fn_count(idents) == fn_ident_count(idents),
        (forall|i: int| 0 <= i < idents.len() ==> !mentions_fn(#[trigger] idents[i]@))
            ==> verbatim_fn_count(idents) == 0,
        fn_ident_count(idents) <= idents.len(),
    decreases idents.len(),
{
    if idents.len() > 0 {
        let init = idents.drop_last();
        assert forall|i: int| 0 <= i < init.len() implies #[trigger] init[i]@ != "fn"@ by {
            assert(init[i] == idents[i]);
        }
        law_verbatim_without_fn_keyword(init);
        if forall|i: int| 0 <= i < idents.len() ==> !mentions_fn(#[trigger] idents[i]@) {
            assert forall|i: int| 0 <= i < init.len() implies !mentions_fn(#[trigger] init[i]@) by {
                assert(init[i] == idents[i]);
            }
            assert(!mentions_fn(idents[idents.len() - 1]@));
        }
    }
}

/// An item kept as raw tokens that declares a function (a `safe fn`) counts as
/// exactly one imported, unsafe function, whatever its other identifiers are.
pub proof fn law_safe_fn_counts_once(idents: Seq<String>, i: int)
    requires
        0 <= i < idents.len(),
        idents[i]@ == "fn"@,
    ensures
        verbatim_fn_count(idents) == 1,
{
}

/// Every function imported from a foreign library is also counted as an unsafe function.
pub proof fn law_imports_are_unsafe(nodes: Seq<SyntaxNode>)
    ensures
        tally(nodes).ffi_import_funcs <= tally(nodes).unsafe_funcs,
    decreases nodes.len(),
{
    if nodes.len() > 0 {
        law_imports_are_unsafe(nodes.drop_last());
    }
}

impl Default for CrateData {
    fn default() -> (data: CrateData)
        ensures
            data@.name == Seq::<char>::empty(),
            data@.counts == Counts::zero(),
    {
        CrateData {
            crate_name: String::new(),
            unsafe_traits: 0,
            unsafe_exprs: 0,
            unsafe_impls: 0,
            unsafe_funcs: 0,
            unsafe_mods: 0,
            ffi_export_funcs: 0,
            ffi_import_funcs: 0,
        }
    }
}

impl CrateData {
    /// The name under which the census is reported.
    pub fn crate_name(&self) -> (name: &str)
        ensures
            name@ == self@.name,
    {
        self.crate_name.as_str()
    }

    pub fn unsafe_traits(&self) -> (n: u32)
        ensures
            n == self@.counts.unsafe_traits,
    {
        self.unsafe_traits
    }

    pub fn unsafe_exprs(&self) -> (n: u32)
        ensures
            n == self@.counts.unsafe_exprs,
    {
        self.unsafe_exprs
    }

    pub fn unsafe_impls(&self) -> (n: u32)
        ensures
            n == self@.counts.unsafe_impls,
    {
        self.unsafe_impls
    }

    pub fn unsafe_funcs(&self) -> (n: u32)
        ensures
            n == self@.counts.unsafe_funcs,
    {
        self.unsafe_funcs
    }

    pub fn unsafe_mods(&self) -> (n: u32)
        ensures
            n == self@.counts.unsafe_mods,
    {
        self.unsafe_mods
    }

    pub fn ffi_export_funcs(&self) -> (n: u32)
        ensures
            n == self@.counts.ffi_export_funcs,
    {
        self.ffi_export_funcs
    }

    pub fn ffi_import_funcs(&self) -> (n: u32)
        ensures
            n == self@.counts.ffi_import_funcs,
    {
        self.ffi_import_funcs
    }

    /// A census with this name and these counters.
    pub fn from_parts(
        crate_name: String,
        unsafe_traits: u32,
        unsafe_exprs: u32,
        unsafe_impls: u32,
        unsafe_funcs: u32,
        unsafe_mods: u32,
        ffi_export_funcs: u32,
        ffi_import_funcs: u32,
    ) -> (data: CrateData)
        ensures
            data@.name == crate_name@,
            data@.counts == (Counts {
                unsafe_traits: unsafe_traits as nat,
                unsafe_exprs: unsafe_exprs as nat,
                unsafe_impls: unsafe_impls as nat,
                unsafe_funcs: unsafe_funcs as nat,
                unsafe_mods: unsafe_mods as nat,
                ffi_export_funcs: ffi_export_funcs as nat,
                ffi_import_funcs: ffi_import_funcs as nat,
            }),
    {
        CrateData {
            crate_name,
            unsafe_traits,
            unsafe_exprs,
            unsafe_impls,
            unsafe_funcs,
            unsafe_mods,
            ffi_export_funcs,
            ffi_import_funcs,
        }
    }

    /// Sets the name under which the census is reported; the counters stay.
    pub fn set_crate_name(&mut self, name: &str)
        ensures
            final(self)@.name == name@,
            final(self)@.counts == old(self)@.counts,
    {
        self.crate_name = name.to_string();
        proof {
            broadcast use vstd::string::group_string_axioms;
            assert(vstd::string::to_string_from_display_ensures::<str>(name, self.crate_name));
        }
    }

    /// Counts one construct.
    pub fn record(&mut self, node: &SyntaxNode)
        requires
            old(self)@.counts.add(node_counts(*node)).fits(),
        ensures
            final(self)@.name == old(self)@.name,
            final(self)@.counts == old(self)@.counts.add(node_counts(*node)),
    {
        match node {
            SyntaxNode::ImplBlock { is_unsafe } => {
                if *is_unsafe {
                    self.unsafe_impls = self.unsafe_impls + 1;
                }
            },
            SyntaxNode::FnItem { is_unsafe, has_abi } => {
                if *is_unsafe {
                    self.unsafe_funcs = self.unsafe_funcs + 1;
                }
                if *has_abi {
                    self.ffi_export_funcs = self.ffi_export_funcs + 1;
                }
            },
            SyntaxNode::ImplFn { is_unsafe, has_abi } => {
                if *is_unsafe {
                    self.unsafe_funcs = self.unsafe_funcs + 1;
                }
                if *has_abi {
                    self.ffi_export_funcs = self.ffi_export_funcs + 1;
                }
            },
            SyntaxNode::ForeignFn => {
                self.ffi_import_funcs = self.ffi_import_funcs + 1;
                self.unsafe_funcs = self.unsafe_funcs + 1;
            },
            SyntaxNode::ForeignVerbatim { idents } => {
                let k = verbatim_fns(idents);
                let k32 = k as u32;
                self.ffi_import_funcs = self.ffi_import_funcs + k32;
                self.unsafe_funcs = self.unsafe_funcs + k32;
            },
            SyntaxNode::Module { is_unsafe } => {
                if *is_unsafe {
                    self.unsafe_mods = self.unsafe_mods + 1;
                }
            },
            SyntaxNode::Trait { is_unsafe } => {
                if *is_unsafe {
                    self.unsafe_traits = self.unsafe_traits + 1;
                }
            },
            SyntaxNode::UnsafeBlock => {
                self.unsafe_exprs = self.unsafe_exprs + 1;
            },
        }
    }

    /// Counts the constructs of one source file, in order.
    pub fn record_all(&mut self, nodes: &Vec<SyntaxNode>)
        requires
            old(self)@.counts.add(tally(nodes@)).fits(),
        ensures
            final(self)@.name == old(self)@.name,
            final(self)@.counts == old(self)@.counts.add(tally(nodes@)),
    {
        let ghost start = self@.counts;
        let mut j: usize = 0;
        while j < nodes.len()
            invariant
                j <= nodes@.len(),
                self@.name == old(self)@.name,
                start == old(self)@.counts,
                self@.counts == start.add(tally(nodes@.take(j as int))),
                start.add(tally(nodes@)).fits(),
            decreases nodes@.len() - j,
        {
            proof {
                lemma_tally_step(nodes@, j as int);
                lemma_tally_prefix_le(nodes@, j + 1);
            }
            self.record(&nodes[j]);
            j = j + 1;
        }
        assert(nodes@.take(j as int) =~= nodes@);
    }

    /// Whether counting all constructs of `files` keeps every counter within `u32`.
    pub fn fits_files(&self, files: &Vec<Vec<SyntaxNode>>) -> (ok: bool)
        ensures
            ok == self@.counts.add(tally_files(files@)).fits(),
    {
        let mut probe = CrateData {
            crate_name: String::new(),
            unsafe_traits: self.unsafe_traits,
            unsafe_exprs: self.unsafe_exprs,
            unsafe_impls: self.unsafe_impls,
            unsafe_funcs: self.unsafe_funcs,
            unsafe_mods: self.unsafe_mods,
            ffi_export_funcs: self.ffi_export_funcs,
            ffi_import_funcs: self.ffi_import_funcs,
        };
        let ghost start = self@.counts;
        let mut i: usize = 0;
        while i < files.len()
            invariant
                i <= files@.len(),
                start == self@.counts,
                probe@.counts == start.add(tally_files(files@.take(i as int))),
            decreases files@.len() - i,
        {
            proof {
                lemma_tally_files_step(files@, i as int);
            }
            let nodes = &files[i];
            let mut j: usize = 0;
            while j < nodes.len()
                invariant
                    i < files@.len(),
                    nodes == files@[i as int],
                    j <= nodes@.len(),
                    start == self@.counts,
                    probe@.counts == start.add(tally_files(files@.take(i as int))).add(
                        tally(nodes@.take(j as int)),
                    ),
                decreases nodes@.len() - j,
            {
                proof {
                    lemma_tally_step(nodes@, j as int);
                }
                if !probe.can_record(&nodes[j]) {
                    proof {
                        lemma_tally_prefix_le(nodes@, j + 1);
                        lemma_tally_files_prefix_le(files@, i + 1);
                        lemma_tally_files_step(files@, i as int);
                        let before = start.add(tally_files(files@.take(i as int)));
                        assert(before.add(tally(nodes@.take(j + 1))).le(
                            start.add(tally_files(files@.take(i + 1))),
                        ));
                        assert(start.add(tally_files(files@.take(i + 1))).le(
                            start.add(tally_files(files@)),
                        ));
                    }
                    return false;
                }
                probe.record(&nodes[j]);
                j = j + 1;
            }
            assert(nodes@.take(j as int) =~= nodes@);
            i = i + 1;
        }
        assert(files@.take(i as int) =~= files@);
        true
    }

    /// Whether counting `node` keeps every counter within `u32`.
    fn can_record(&self, node: &SyntaxNode) -> (ok: bool)
        ensures
            ok == self@.counts.add(node_counts(*node)).fits(),
    {
        match node {
            SyntaxNode::ImplBlock { is_unsafe } => !*is_unsafe || self.unsafe_impls < u32::MAX,
            SyntaxNode::FnItem { is_unsafe, has_abi } => (!*is_unsafe || self.unsafe_funcs
                < u32::MAX) && (!*has_abi || self.ffi_export_funcs < u32::MAX),
            SyntaxNode::ImplFn { is_unsafe, has_abi } => (!*is_unsafe || self.unsafe_funcs
                < u32::MAX) && (!*has_abi || self.ffi_export_funcs < u32::MAX),
            SyntaxNode::ForeignFn => self.unsafe_funcs < u32::MAX && self.ffi_import_funcs
                < u32::MAX,
            SyntaxNode::ForeignVerbatim { idents } => {
                let k = verbatim_fns(idents);
                k <= (u32::MAX - self.unsafe_funcs) as usize && k <= (u32::MAX
                    - self.ffi_import_funcs) as usize
            },
            SyntaxNode::Module { is_unsafe } => !*is_unsafe || self.unsafe_mods < u32::MAX,
            SyntaxNode::Trait { is_unsafe } => !*is_unsafe || self.unsafe_traits < u32::MAX,
            SyntaxNode::UnsafeBlock => self.unsafe_exprs < u32::MAX,
        }
    }

    /// Counts the constructs of all source files of the crate.
    ///
    /// A crate without any source file is an error: the download or the unpacking
    /// went wrong, and the census is left as it was.
    pub fn analyze_sources(&mut self, files: &Vec<Vec<SyntaxNode>>) -> (res: Result<
        (),
        AnalyzeError,
    >)
        requires
            old(self)@.counts.add(tally_files(files@)).fits(),
        ensures
            final(self)@.name == old(self)@.name,
            files@.len() == 0 ==> {
                &&& final(self)@.counts == old(self)@.counts
                &&& res matches Err(AnalyzeError::NoEntries { crate_name })
                &&& crate_name@ == old(self)@.name
            },
            files@.len() > 0 ==> {
                &&& res is Ok
                &&& final(self)@.counts == old(self)@.counts.add(tally_files(files@))
            },
    {
        if files.len() == 0 {
            return Err(AnalyzeError::NoEntries { crate_name: self.crate_name.clone() });
        }
        let ghost start = self@.counts;
        let mut i: usize = 0;
        while i < files.len()
            invariant
                i <= files@.len(),
                self@.name == old(self)@.name,
                start == old(self)@.counts,
                self@.counts == start.add(tally_files(files@.take(i as int))),
                start.add(tally_files(files@)).fits(),
            decreases files@.len() - i,
        {
            proof {
                lemma_tally_files_step(files@, i as int);
                lemma_tally_files_prefix_le(files@, i + 1);
            }
            self.record_all(&files[i]);
            i = i + 1;
        }
        assert(files@.take(i as int) =~= files@);
        Ok(())
    }
}

} // verus!
