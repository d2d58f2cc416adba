//! The crates of the registry index, and the choices made on them before downloading.

use vstd::prelude::*;

verus! {

/// Where downloaded crates are unpacked.
pub const CRATE_OUTPUT_DIR: &'static str = "crates";

/// The git repository of the crates.io index.
pub const CRATE_INDEX_URL: &'static str = "https://github.com/rust-lang/crates.io-index";

/// The file, inside the registry directory, that caches the index.
pub const CRATE_INDEX_CACHE: &'static str = "crates_index.bitcode";

/// The registry directory used when no other one is found.
pub const LOCAL_REGISTRY_DIR: &'static str = "registry";

/// Where, below the cargo home, the registry directories are looked for.
pub const CARGO_REGISTRY_SUBDIR: &'static str = "registry/src";

/// A crate of the index: its name, its highest version, and the names of that
/// version's dependencies.
pub struct Crate {
    pub name: String,
    pub version: String,
    pub deps: Vec<String>,
}

/// Whether one of `names` is `name`.
pub open spec fn name_listed(names: Seq<String>, name: Seq<char>) -> bool {
    exists|i: int| 0 <= i < names.len() && #[trigger] names[i]@ == name
}

/// Whether one of the crate's dependencies is one of `names`.
pub open spec fn depends_on_any(deps: Seq<String>, names: Seq<String>) -> bool {
    exists|i: int| 0 <= i < deps.len() && name_listed(names, #[trigger] deps[i]@)
}

/// The crates of `crates` whose name is one of `names`, in order.
pub open spec fn chosen_by_name(crates: Seq<Crate>, names: Seq<String>) -> Seq<Crate> {
    crates.filter(|c: Crate| name_listed(names, c.name@))
}

/// The crates of `crates` that depend on one of `names`, in order.
pub open spec fn chosen_by_deps(crates: Seq<Crate>, names: Seq<String>) -> Seq<Crate> {
    crates.filter(|c: Crate| depends_on_any(c.deps@, names))
}

/// The address from which a crate's archive is downloaded.
pub open spec fn download_url_of(name: Seq<char>, version: Seq<char>) -> Seq<char> {
    "https://static.crates.io/crates/"@ + name + "/"@ + name + "-"@ + version + ".crate"@
}

/// The directory into which a crate's archive unpacks.
pub open spec fn unpacked_dir_of(name: Seq<char>, version: Seq<char>) -> Seq<char> {
    CRATE_OUTPUT_DIR@ + "/"@ + name + "-"@ + version
}

/// Tells whether `name` is one of `names`.
pub fn is_listed(names: &Vec<String>, name: &String) -> (found: bool)
    ensures
        found == name_listed(names@, name@),
{
    let mut k: usize = 0;
    while k < names.len()
        invariant
            k <= names@.len(),
            forall|i: int| 0 <= i < k ==> #[trigger] names@[i]@ != name@,
        decreases names@.len() - k,
    {
        if names[k] == *name {
            return true;
        }
        k = k + 1;
    }
    false
}

/// Tells whether one of `deps` is one of `names`.
pub fn any_listed(deps: &Vec<String>, names: &Vec<String>) -> (found: bool)
    ensures
        found == depends_on_any(deps@, names@),
{
    let mut k: usize = 0;
    while k < deps.len()
        invariant
            k <= deps@.len(),
            forall|i: int| 0 <= i < k ==> !name_listed(names@, #[trigger] deps@[i]@),
        decreases deps@.len() - k,
    {
        if is_listed(names, &deps[k]) {
            return true;
        }
        k = k + 1;
    }
    false
}

impl Crate {
    /// The address from which the crate's archive is downloaded.
    pub fn download_url(&self) -> (url: String)
        ensures
            url@ == download_url_of(self.name@, self.version@),
    {
        let mut url = String::from_str("https://static.crates.io/crates/");
        url.append(self.name.as_str());
        url.append("/");
        url.append(self.name.as_str());
        url.append("-");
        url.append(self.version.as_str());
        url.append(".crate");
        url
    }

    /// The directory into which the crate's archive unpacks.
    pub fn unpacked_dir(&self) -> (dir: String)
        ensures
            dir@ == unpacked_dir_of(self.name@, self.version@),
    {
        let mut dir = String::from_str(CRATE_OUTPUT_DIR);
        dir.append("/");
        dir.append(self.name.as_str());
        dir.append("-");
        dir.append(self.version.as_str());
        dir
    }
}

/// The pattern that matches every Rust source file below `dir`.
pub fn source_pattern(dir: &str) -> (pattern: String)
    ensures
        pattern@ == dir@ + "/**/*.rs"@,
{
    let mut pattern = String::from_str(dir);
    pattern.append("/**/*.rs");
    pattern
}

/// Keeps the first `n` crates, in order (all of them if there are fewer).
pub fn take_first(crates: Vec<Crate>, n: usize) -> (kept: Vec<Crate>)
    ensures
        n <= crates@.len() ==> kept@ == crates@.take(n as int),
        n > crates@.len() ==> kept@ == crates@,
{
    let mut kept = crates;
    kept.truncate(n);
    kept
}

/// Keeps the crates whose name is one of `names`, in their order.
pub fn retain_named(crates: Vec<Crate>, names: &Vec<String>) -> (kept: Vec<Crate>)
    ensures
        kept@ == chosen_by_name(crates@, names@),
{
    let ghost all = crates@;
    let ghost pred = |c: Crate| name_listed(names@, c.name@);
    let mut kept: Vec<Crate> = Vec::new();
    let ghost mut idx: int = 0;
    for c in it: crates.into_iter()
        invariant
            it.seq() == all,
            idx == it.index(),
            pred == (|c: Crate| name_listed(names@, c.name@)),
            kept@ == all.take(idx).filter(pred),
    {
        proof {
            reveal_with_fuel(Seq::<_>::filter, 1);
            assert(all.take(idx + 1).drop_last() =~= all.take(idx));
        }
        if is_listed(names, &c.name) {
            kept.push(c);
        }
        proof {
            idx = idx + 1;
        }
    }
    assert(all.take(idx) =~= all);
    kept
}

/// Keeps the crates that depend on at least one of `names`, in their order.
pub fn retain_depending_on(crates: Vec<Crate>, names: &Vec<String>) -> (kept: Vec<Crate>)
    ensures
        kept@ == chosen_by_deps(crates@, names@),
{
    let ghost all = crates@;
    let ghost pred = |c: Crate| depends_on_any(c.deps@, names@);
    let mut kept: Vec<Crate> = Vec::new();
    let ghost mut idx: int = 0;
    for c in it: crates.into_iter()
        invariant
            it.seq() == all,
            idx == it.index(),
            pred == (|c: Crate| depends_on_any(c.deps@, names@)),
            kept@ == all.take(idx).filter(pred),
    {
        proof {
            reveal_with_fuel(Seq::<_>::filter, 1);
            assert(all.take(idx + 1).drop_last() =~= all.take(idx));
        }
        if any_listed(&c.deps, names) {
            kept.push(c);
        }
        proof {
            idx = idx + 1;
        }
    }
    assert(all.take(idx) =~= all);
    kept
}

/// A name is listed exactly when it equals one of the given names character for
/// character: a given name that is only a prefix, or only part, of it does not list it.
pub proof fn law_listed_means_equal(names: Seq<String>, name: Seq<char>)
    ensures
        name_listed(names, name) == equals_an_entry(names, name),
        forall|j: int| 0 <= j < names.len() && names[j]@ == name ==> name_listed(names, name),
        names.len() == 0 ==> !name_listed(names, name),
{
    assert forall|j: int| 0 <= j < names.len() && names[j]@ == name implies name_listed(
        names,
        name,
    ) by {
        assert(names[j]@ == name);
    }
}

/// A crate depends on the given names exactly when one of its dependencies equals one
/// of the given names, at any position of either list.
pub proof fn law_depends_means_equal(deps: Seq<String>, names: Seq<String>)
    ensures
        forall|i: int, j: int|
            0 <= i < deps.len() && 0 <= j < names.len() && #[trigger] deps[i]@
                == #[trigger] names[j]@ ==> depends_on_any(deps, names),
        depends_on_any(deps, names) == share_an_entry(deps, names),
        deps.len() == 0 ==> !depends_on_any(deps, names),
        names.len() == 0 ==> !depends_on_any(deps, names),
{
    assert forall|i: int, j: int|
        0 <= i < deps.len() && 0 <= j < names.len() && #[trigger] deps[i]@
            == #[trigger] names[j]@ implies depends_on_any(deps, names) by {
        assert(name_listed(names, deps[i]@));
    }
    if depends_on_any(deps, names) {
        let i = choose|i: int| 0 <= i < deps.len() && name_listed(names, #[trigger] deps[i]@);
        let j = choose|j: int| 0 <= j < names.len() && #[trigger] names[j]@ == deps[i]@;
        assert(deps[i]@ == names[j]@);
    }
    if share_an_entry(deps, names) {
        let (k, j) = choose|k: int, j: int|
            0 <= k < deps.len() && 0 <= j < names.len() && #[trigger] deps[k]@
                == #[trigger] names[j]@;
        assert(name_listed(names, deps[k]@));
    }
}

/// Whether some entry of `names` equals `name`, character for character.
pub open spec fn equals_an_entry(names: Seq<String>, name: Seq<char>) -> bool {
    exists|j: int| 0 <= j < names.len() && #[trigger] names[j]@ == name
}

/// Whether some entry of `deps` equals some entry of `names`.
pub open spec fn share_an_entry(deps: Seq<String>, names: Seq<String>) -> bool {
    exists|k: int, j: int|
        0 <= k < deps.len() && 0 <= j < names.len() && #[trigger] deps[k]@ == #[trigger] names[j]@
}

/// Every crate chosen by name has a name equal to one of the given names, and every
/// crate chosen by dependency has a dependency equal to one of them.
pub proof fn law_chosen_names_are_given(crates: Seq<Crate>, names: Seq<String>)
    ensures
        forall|i: int|
            0 <= i < chosen_by_name(crates, names).len() ==> equals_an_entry(
                names,
                #[trigger] chosen_by_name(crates, names)[i].name@,
            ),
        forall|i: int|
            0 <= i < chosen_by_deps(crates, names).len() ==> share_an_entry(
                #[trigger] chosen_by_deps(crates, names)[i].deps@,
                names,
            ),
{
    law_named_selection(crates, names);
    law_dependency_selection(crates, names);
    assert forall|i: int| 0 <= i < chosen_by_name(crates, names).len() implies equals_an_entry(
        names,
        #[trigger] chosen_by_name(crates, names)[i].name@,
    ) by {
        law_listed_means_equal(names, chosen_by_name(crates, names)[i].name@);
    }
    assert forall|i: int| 0 <= i < chosen_by_deps(crates, names).len() implies share_an_entry(
        #[trigger] chosen_by_deps(crates, names)[i].deps@,
        names,
    ) by {
        law_depends_means_equal(chosen_by_deps(crates, names)[i].deps@, names);
    }
}

/// The download address is the fixed prefix, the name, `/`, the name again, `-`,
/// the version and `.crate`, each copied character for character.
pub proof fn law_download_url_layout(name: Seq<char>, version: Seq<char>)
    ensures
        ({
            let url = download_url_of(name, version);
            let n = name.len() as int;
            let v = version.len() as int;
            &&& url.len() == 40 + 2 * n + v
            &&& url.subrange(0, 32) == "https://static.crates.io/crates/"@
            &&& url.subrange(32, 32 + n) == name
            &&& url[32 + n] == '/'
            &&& url.subrange(33 + n, 33 + 2 * n) == name
            &&& url[33 + 2 * n] == '-'
            &&& url.subrange(34 + 2 * n, 34 + 2 * n + v) == version
            &&& url.subrange(34 + 2 * n + v, 40 + 2 * n + v) == ".crate"@
        }),
{
    reveal_strlit("https://static.crates.io/crates/");
    reveal_strlit("/");
    reveal_strlit("-");
    reveal_strlit(".crate");
    let url = download_url_of(name, version);
    let n = name.len() as int;
    let v = version.len() as int;
    assert(url.subrange(0, 32) =~= "https://static.crates.io/crates/"@);
    assert(url.subrange(32, 32 + n) =~= name);
    assert(url.subrange(33 + n, 33 + 2 * n) =~= name);
    assert(url.subrange(34 + 2 * n, 34 + 2 * n + v) =~= version);
    assert(url.subrange(34 + 2 * n + v, 40 + 2 * n + v) =~= ".crate"@);
}

/// The unpack directory is `crates/`, the name, `-` and the version, each copied
/// character for character.
pub proof fn law_unpacked_dir_layout(name: Seq<char>, version: Seq<char>)
    ensures
        ({
            let dir = unpacked_dir_of(name, version);
            let n = name.len() as int;
            let v = version.len() as int;
            &&& dir.len() == 8 + n + v
            &&& dir.subrange(0, 7) == "crates/"@
            &&& dir.subrange(7, 7 + n) == name
            &&& dir[7 + n] == '-'
            &&& dir.subrange(8 + n, 8 + n + v) == version
        }),
{
    reveal_strlit("crates");
    reveal_strlit("crates/");
    reveal_strlit("/");
    reveal_strlit("-");
    let dir = unpacked_dir_of(name, version);
    let n = name.len() as int;
    let v = version.len() as int;
    assert(CRATE_OUTPUT_DIR@ == "crates"@);
    assert(dir.subrange(0, 7) =~= "crates/"@);
    assert(dir.subrange(7, 7 + n) =~= name);
    assert(dir.subrange(8 + n, 8 + n + v) =~= version);
}

/// The crates chosen by name are exactly the crates of the index whose name is
/// listed: every chosen crate is listed, and every listed crate of the index is chosen.
pub proof fn law_named_selection(crates: Seq<Crate>, names: Seq<String>)
    ensures
        forall|i: int|
            0 <= i < chosen_by_name(crates, names).len() ==> name_listed(
                names,
                #[trigger] chosen_by_name(crates, names)[i].name@,
            ),
        forall|i: int|
            0 <= i < crates.len() && name_listed(names, crates[i].name@) ==> chosen_by_name(
                crates,
                names,
            ).contains(#[trigger] crates[i]),
{
    let pred = |c: Crate| name_listed(names, c.name@);
    assert forall|i: int| 0 <= i < chosen_by_name(crates, names).len() implies name_listed(
        names,
        #[trigger] chosen_by_name(crates, names)[i].name@,
    ) by {
        crates.lemma_filter_pred(pred, i);
    }
    assert forall|i: int|
        0 <= i < crates.len() && name_listed(names, crates[i].name@) implies chosen_by_name(
        crates,
        names,
    ).contains(#[trigger] crates[i]) by {
        crates.lemma_filter_contains(pred, i);
    }
}

/// The crates chosen by dependency are exactly the crates of the index that depend
/// on one of the listed names.
pub proof fn law_dependency_selection(crates: Seq<Crate>, names: Seq<String>)
    ensures
        forall|i: int|
            0 <= i < chosen_by_deps(crates, names).len() ==> depends_on_any(
                #[trigger] chosen_by_deps(crates, names)[i].deps@,
                names,
            ),
        forall|i: int|
            0 <= i < crates.len() && depends_on_any(crates[i].deps@, names) ==> chosen_by_deps(
                crates,
                names,
            ).contains(#[trigger] crates[i]),
{
    let pred = |c: Crate| depends_on_any(c.deps@, names);
    assert forall|i: int| 0 <= i < chosen_by_deps(crates, names).len() implies depends_on_any(
        #[trigger] chosen_by_deps(crates, names)[i].deps@,
        names,
    ) by {
        crates.lemma_filter_pred(pred, i);
    }
    assert forall|i: int|
        0 <= i < crates.len() && depends_on_any(crates[i].deps@, names) implies chosen_by_deps(
        crates,
        names,
    ).contains(#[trigger] crates[i]) by {
        crates.lemma_filter_contains(pred, i);
    }
}

/// Drops the dependency lists, which downloading does not need; names and
/// versions stay, in order.
pub fn strip_deps(crates: Vec<Crate>) -> (stripped: Vec<Crate>)
    ensures
        stripped@.len() == crates@.len(),
        forall|i: int|
            0 <= i < crates@.len() ==> {
                &&& #[trigger] stripped@[i].name == crates@[i].name
                &&& stripped@[i].version == crates@[i].version
                &&& stripped@[i].deps@.len() == 0
            },
{
    let ghost all = crates@;
    let mut stripped: Vec<Crate> = Vec::new();
    let ghost mut idx: int = 0;
    for c in it: crates.into_iter()
        invariant
            it.seq() == all,
            idx == it.index(),
            stripped@.len() == idx,
            forall|i: int|
                0 <= i < idx ==> {
                    &&& #[trigger] stripped@[i].name == all[i].name
                    &&& stripped@[i].version == all[i].version
                    &&& stripped@[i].deps@.len() == 0
                },
    {
        assert(c == all[idx]);
        stripped.push(Crate { name: c.name, version: c.version, deps: Vec::new() });
        assert(stripped@[idx].name == all[idx].name);
        assert(stripped@[idx].version == all[idx].version);
        assert(stripped@[idx].deps@.len() == 0);
        proof {
            idx = idx + 1;
        }
    }
    assert(idx == all.len());
    assert forall|i: int| 0 <= i < all.len() implies {
        &&& #[trigger] stripped@[i].name == all[i].name
        &&& stripped@[i].version == all[i].version
        &&& stripped@[i].deps@.len() == 0
    } by {
        assert(0 <= i < idx);
        assert(stripped@[i].name == all[i].name);
    }
    stripped
}

/// Which registry directory to read the index from.
pub enum RegistryChoice {
    /// The directory that the environment names explicitly.
    Configured,
    /// The registry directory below the cargo home at this position of the listing:
    /// the one modified last.
    Newest(usize),
    /// The local directory `registry`.
    Local,
}

/// Whether position `i` holds the latest time of `times`, and no later position
/// holds the same time.
pub open spec fn is_newest(times: Seq<i128>, i: int) -> bool {
    &&& 0 <= i < times.len()
    &&& forall|j: int| 0 <= j < times.len() ==> #[trigger] times[j] <= times[i]
    &&& forall|j: int| i < j < times.len() ==> #[trigger] times[j] < times[i]
}

/// At most one position is the newest; a listing that is not empty has one; a
/// directory listed after it with the same time takes its place, and one with an
/// earlier time does not.
pub proof fn law_newest(times: Seq<i128>, i: int, j: int, t: i128)
    ensures
        is_newest(times, i) && is_newest(times, j) ==> i == j,
        is_newest(times, i) ==> forall|k: int| 0 <= k < times.len() ==> times[k] <= times[i],
        is_newest(times, i) && t == times[i] ==> is_newest(times.push(t), times.len() as int),
        is_newest(times, i) && t > times[i] ==> is_newest(times.push(t), times.len() as int),
        is_newest(times, i) && t < times[i] ==> is_newest(times.push(t), i),
        times.len() > 0 ==> exists|m: int| is_newest(times, m),
    decreases times.len(),
{
    if is_newest(times, i) && is_newest(times, j) {
        if i < j {
            assert(times[j] < times[i]);
            assert(times[i] <= times[j]);
        } else if j < i {
            assert(times[i] < times[j]);
            assert(times[j] <= times[i]);
        }
    }
    if is_newest(times, i) && t >= times[i] {
        let u = times.push(t);
        assert forall|k: int| 0 <= k < u.len() implies #[trigger] u[k] <= u[times.len() as int] by {
            if k < times.len() {
                assert(u[k] == times[k]);
            }
        }
    }
    if is_newest(times, i) && t < times[i] {
        let u = times.push(t);
        assert forall|k: int| 0 <= k < u.len() implies #[trigger] u[k] <= u[i] by {
            if k < times.len() {
                assert(u[k] == times[k]);
            }
        }
        assert forall|k: int| i < k < u.len() implies #[trigger] u[k] < u[i] by {
            if k < times.len() {
                assert(u[k] == times[k]);
            }
        }
    }
    if times.len() > 0 {
        let init = times.drop_last();
        if init.len() == 0 {
            assert(is_newest(times, 0));
        } else {
            law_newest(init, 0, 0, 0);
            let m = choose|m: int| is_newest(init, m);
            law_newest(init, m, m, times.last());
            assert(times =~= init.push(times.last()));
            if times.last() >= init[m] {
                assert(is_newest(times, times.len() - 1));
            } else {
                assert(is_newest(times, m));
            }
        }
    }
}

/// Chooses the registry directory.
///
/// `configured` tells whether the environment names a registry directory;
/// `index_dirs` holds, when the cargo home's `registry/src` directory exists, the
/// modification times of the directories in it (in listing order; a time that
/// cannot be read counts as the epoch, 0). Of several directories modified at the
/// same latest time, the one listed last wins.
pub fn choose_registry(configured: bool, index_dirs: &Option<Vec<i128>>) -> (choice:
    RegistryChoice)
    ensures
        configured ==> choice is Configured,
        !configured ==> match index_dirs {
            None => choice is Local,
            Some(times) => if times@.len() == 0 {
                choice is Local
            } else {
                choice matches RegistryChoice::Newest(i) && is_newest(times@, i as int)
            },
        },
{
    if configured {
        return RegistryChoice::Configured;
    }
    match index_dirs {
        None => RegistryChoice::Local,
        Some(times) => {
            if times.len() == 0 {
                return RegistryChoice::Local;
            }
            let mut best: usize = 0;
            let mut j: usize = 1;
            while j < times.len()
                invariant
                    1 <= j <= times@.len(),
                    best < j,
                    forall|k: int| 0 <= k < j ==> #[trigger] times@[k] <= times@[best as int],
                    forall|k: int| best < k < j ==> #[trigger] times@[k] < times@[best as int],
                decreases times@.len() - j,
            {
                if times[j] >= times[best] {
                    best = j;
                }
                j = j + 1;
            }
            RegistryChoice::Newest(best)
        },
    }
}

} // verus!
