//! Configuration sources: the flattened key/value entries that a source
//! contributes, and how entries are found among them.

use vstd::prelude::*;

verus! {

/// One configuration value together with the path of keys that leads to it,
/// outermost key first. A table or a list without members is written as
/// one entry whose path goes on below it with an empty key.
#[derive(Debug, Clone)]
pub struct Entry {
    pub path: Vec<String>,
    pub value: String,
}

/// The mathematical content of an [`Entry`].
pub struct EntryView {
    pub path: Seq<Seq<char>>,
    pub value: Seq<char>,
}

/// The segments of a path as character sequences.
pub open spec fn path_view(path: Seq<String>) -> Seq<Seq<char>> {
    Seq::new(path.len(), |i: int| path[i]@)
}

impl View for Entry {
    type V = EntryView;

    open spec fn view(&self) -> EntryView {
        EntryView { path: path_view(self.path@), value: self.value@ }
    }
}

/// The contents of a list of entries, in order.
pub open spec fn entries_view(entries: Seq<Entry>) -> Seq<EntryView> {
    Seq::new(entries.len(), |i: int| entries[i]@)
}

/// What one layer of configuration handed over: nothing, because it does
/// not exist; something unreadable; or its entries.
#[derive(Debug, Clone)]
pub enum Source {
    Absent,
    Malformed,
    Entries(Vec<Entry>),
}

impl Source {
    /// The source exists and could not be read as configuration.
    pub open spec fn is_malformed(&self) -> bool {
        self is Malformed
    }

    /// The entries that the source contributes; an absent source
    /// contributes none.
    pub open spec fn entries(&self) -> Seq<EntryView> {
        match self {
            Source::Entries(entries) => entries_view(entries@),
            _ => Seq::empty(),
        }
    }
}

/// `short` is the beginning of `long`, or all of it.
pub open spec fn begins(short: Seq<Seq<char>>, long: Seq<Seq<char>>) -> bool {
    short.len() <= long.len() && forall|k: int| 0 <= k < short.len() ==> short[k] == long[k]
}

/// One of the two paths leads through the other: they are the same key, or
/// one lies below the other.
pub open spec fn related(one: Seq<Seq<char>>, other: Seq<Seq<char>>) -> bool {
    begins(one, other) || begins(other, one)
}

/// Among the first `n` entries of `later` one has a path related to `path`.
pub open spec fn overridden_within(path: Seq<Seq<char>>, later: Seq<EntryView>, n: int) -> bool {
    exists|j: int| 0 <= j < n && related((#[trigger] later[j]).path, path)
}

/// A later layer replaces what an earlier layer holds at `path`: it holds
/// the same key, a key below it, or a key above it.
pub open spec fn overridden(path: Seq<Seq<char>>, later: Seq<EntryView>) -> bool {
    overridden_within(path, later, later.len() as int)
}

/// The entries of the earlier layer that the later layer leaves in place.
pub open spec fn retained(earlier: Seq<EntryView>, later: Seq<EntryView>) -> Seq<EntryView>
    decreases earlier.len(),
{
    if earlier.len() == 0 {
        Seq::empty()
    } else if overridden(earlier.last().path, later) {
        retained(earlier.drop_last(), later)
    } else {
        retained(earlier.drop_last(), later).push(earlier.last())
    }
}

/// The later layer merged over the earlier one: what the later layer
/// leaves in place, then the later layer's own entries.
pub open spec fn merged(earlier: Seq<EntryView>, later: Seq<EntryView>) -> Seq<EntryView> {
    retained(earlier, later) + later
}

/// The entry lies under the top-level key `category`.
pub open spec fn under(entry: EntryView, category: Seq<char>) -> bool {
    entry.path.len() > 0 && entry.path[0] == category
}

/// Among the first `n` entries one lies under `category`.
pub open spec fn configured_within(entries: Seq<EntryView>, n: int, category: Seq<char>) -> bool {
    exists|i: int| 0 <= i < n && under(#[trigger] entries[i], category)
}

/// Some entry lies under `category`.
pub open spec fn configured(entries: Seq<EntryView>, category: Seq<char>) -> bool {
    configured_within(entries, entries.len() as int, category)
}

/// Among the first `n` entries one lies under `category` with a path too
/// short to name a variant and a field of it.
pub open spec fn misplaced_within(entries: Seq<EntryView>, n: int, category: Seq<char>) -> bool {
    exists|i: int|
        0 <= i < n && under(#[trigger] entries[i], category) && entries[i].path.len() < 3
}

/// Some entry under `category` stands where a table of variants, or the
/// table of a variant's fields, is expected.
pub open spec fn misplaced(entries: Seq<EntryView>, category: Seq<char>) -> bool {
    misplaced_within(entries, entries.len() as int, category)
}

/// The entry lies under `category` and names a backend kind as its second
/// key.
pub open spec fn kinded(entry: EntryView, category: Seq<char>) -> bool {
    under(entry, category) && entry.path.len() > 1
}

/// Among the first `n` entries two name differently spelled kinds under
/// `category`.
pub open spec fn mixed_within(entries: Seq<EntryView>, n: int, category: Seq<char>) -> bool {
    exists|i: int, j: int|
        0 <= i < n && 0 <= j < n && kinded(#[trigger] entries[i], category) && kinded(
            #[trigger] entries[j],
            category,
        ) && entries[i].path[1] != entries[j].path[1]
}

/// Two entries name differently spelled kinds under `category`.
pub open spec fn mixed(entries: Seq<EntryView>, category: Seq<char>) -> bool {
    mixed_within(entries, entries.len() as int, category)
}

/// The kind as the last entry that names one under `category` spells it.
pub open spec fn spelled(entries: Seq<EntryView>, category: Seq<char>) -> Option<Seq<char>>
    decreases entries.len(),
{
    if entries.len() == 0 {
        None
    } else if kinded(entries.last(), category) {
        Some(entries.last().path[1])
    } else {
        spelled(entries.drop_last(), category)
    }
}

/// The lowercase form of a text, as `str::to_lowercase` gives it.
pub uninterp spec fn lowercase_of(text: Seq<char>) -> Seq<char>;

/// Two names that differ at most in the case of their letters.
pub open spec fn same_kind(spelling: Seq<char>, kind: Seq<char>) -> bool {
    lowercase_of(spelling) == lowercase_of(kind)
}

/// The value of the last entry whose path is exactly `category`, `variant`,
/// `name`: of several entries for one key the latest counts.
pub open spec fn field(
    entries: Seq<EntryView>,
    category: Seq<char>,
    variant: Seq<char>,
    name: Seq<char>,
) -> Option<Seq<char>>
    decreases entries.len(),
{
    if entries.len() == 0 {
        None
    } else if entries.last().path == seq![category, variant, name] {
        Some(entries.last().value)
    } else {
        field(entries.drop_last(), category, variant, name)
    }
}

/// The entry lies below the key `category`, `variant`, `name`: its path
/// begins with these three and goes on.
pub open spec fn below(
    entry: EntryView,
    category: Seq<char>,
    variant: Seq<char>,
    name: Seq<char>,
) -> bool {
    entry.path.len() > 3 && entry.path[0] == category && entry.path[1] == variant
        && entry.path[2] == name
}

/// Among the first `n` entries one lies below the key `category`,
/// `variant`, `name`.
pub open spec fn nested_within(
    entries: Seq<EntryView>,
    n: int,
    category: Seq<char>,
    variant: Seq<char>,
    name: Seq<char>,
) -> bool {
    exists|i: int| 0 <= i < n && below(#[trigger] entries[i], category, variant, name)
}

/// Some entry lies below the key `category`, `variant`, `name`, so that
/// the key holds a table or a list where a field holds text.
pub open spec fn nested(
    entries: Seq<EntryView>,
    category: Seq<char>,
    variant: Seq<char>,
    name: Seq<char>,
) -> bool {
    nested_within(entries, entries.len() as int, category, variant, name)
}

/// The contents of an optional string.
pub open spec fn text_view(text: Option<String>) -> Option<Seq<char>> {
    match text {
        Some(s) => Some(s@),
        None => None,
    }
}

/// What a walk over the entries finds out about one category.
pub struct Census {
    pub configured: bool,
    pub misplaced: bool,
    pub mixed: bool,
    pub spelling: Option<String>,
}

/// Calls `str::to_lowercase` of the standard library. The result is the
/// lowercase form of `text`, which depends on `text` alone.
#[verifier::external_body]
fn to_lowercase(text: &str) -> (lower: String)
    ensures
        lower@ == lowercase_of(text@),
{
    text.to_lowercase()
}

/// Whether `spelling` names `kind`, the case of letters aside.
pub fn kind_is(spelling: &str, kind: &str) -> (same: bool)
    ensures
        same == same_kind(spelling@, kind@),
{
    to_lowercase(spelling) == to_lowercase(kind)
}

/// Whether `key` reads `name`.
pub fn key_is(key: &String, name: &str) -> (same: bool)
    ensures
        same == (key@ == name@),
{
    let owned = name.to_owned();
    *key == owned
}

/// Whether the path of `entry` is exactly `category`, `variant`, `name`.
pub fn leads_to(entry: &Entry, category: &str, variant: &str, name: &str) -> (same: bool)
    ensures
        same == (entry@.path == seq![category@, variant@, name@]),
{
    let same = entry.path.len() == 3 && key_is(&entry.path[0], category) && key_is(
        &entry.path[1],
        variant,
    ) && key_is(&entry.path[2], name);
    proof {
        let wanted = seq![category@, variant@, name@];
        if same {
            assert(entry@.path =~= wanted);
        } else if entry.path.len() == 3 {
            assert(entry@.path[0] == entry.path@[0]@);
            assert(entry@.path[1] == entry.path@[1]@);
            assert(entry@.path[2] == entry.path@[2]@);
            assert(wanted[0] == category@ && wanted[1] == variant@ && wanted[2] == name@);
        } else {
            assert(wanted.len() == 3);
        }
    }
    same
}

/// Whether `short` is the beginning of `long`, or all of it.
pub fn path_begins(short: &Vec<String>, long: &Vec<String>) -> (yes: bool)
    ensures
        yes == begins(path_view(short@), path_view(long@)),
{
    if short.len() > long.len() {
        return false;
    }
    let mut k: usize = 0;
    while k < short.len()
        invariant
            k <= short.len() <= long.len(),
            forall|m: int| 0 <= m < k ==> path_view(short@)[m] == path_view(long@)[m],
        decreases short.len() - k,
    {
        if !(short[k] == long[k]) {
            proof {
                assert(path_view(short@)[k as int] != path_view(long@)[k as int]);
            }
            return false;
        }
        k += 1;
    }
    true
}

/// Whether the layer `later` replaces what stands at `path`.
pub fn is_overridden(path: &Vec<String>, later: &Vec<Entry>) -> (yes: bool)
    ensures
        yes == overridden(path_view(path@), entries_view(later@)),
{
    let ghost all = entries_view(later@);
    let mut j: usize = 0;
    while j < later.len()
        invariant
            j <= later.len(),
            all == entries_view(later@),
            !overridden_within(path_view(path@), all, j as int),
        decreases later.len() - j,
    {
        proof {
            assert(all[j as int] == later@[j as int]@);
        }
        if path_begins(&later[j].path, path) || path_begins(path, &later[j].path) {
            return true;
        }
        j += 1;
    }
    false
}

/// A copy of `entry`.
pub fn duplicate(entry: &Entry) -> (copy: Entry)
    ensures
        copy@ == entry@,
{
    let mut path: Vec<String> = Vec::new();
    let mut k: usize = 0;
    while k < entry.path.len()
        invariant
            k <= entry.path.len(),
            path@.len() == k,
            forall|m: int| 0 <= m < k ==> path@[m]@ == entry.path@[m]@,
        decreases entry.path.len() - k,
    {
        path.push(entry.path[k].clone());
        k += 1;
    }
    let copy = Entry { path, value: entry.value.clone() };
    proof {
        assert(copy@.path =~= entry@.path);
    }
    copy
}

/// Merges the layer `later` over the layer `earlier`: an entry of
/// `earlier` stays unless `later` holds its key, a key below it or a key
/// above it; the entries of `later` follow.
pub fn merge(earlier: &Vec<Entry>, later: &Vec<Entry>) -> (all: Vec<Entry>)
    ensures
        entries_view(all@) == merged(entries_view(earlier@), entries_view(later@)),
{
    let ghost before = entries_view(earlier@);
    let ghost after = entries_view(later@);
    let mut all: Vec<Entry> = Vec::new();
    let mut i: usize = 0;
    while i < earlier.len()
        invariant
            i <= earlier.len(),
            before == entries_view(earlier@),
            after == entries_view(later@),
            entries_view(all@) == retained(before.take(i as int), after),
        decreases earlier.len() - i,
    {
        proof {
            let next = before.take(i as int + 1);
            assert(next.last() == earlier@[i as int]@);
            assert(next.drop_last() =~= before.take(i as int));
        }
        let ghost kept = entries_view(all@);
        if !is_overridden(&earlier[i].path, later) {
            all.push(duplicate(&earlier[i]));
            proof {
                assert(entries_view(all@) =~= kept.push(earlier@[i as int]@));
            }
        }
        i += 1;
    }
    proof {
        assert(before.take(earlier.len() as int) =~= before);
    }
    let ghost kept = entries_view(all@);
    let mut j: usize = 0;
    while j < later.len()
        invariant
            j <= later.len(),
            after == entries_view(later@),
            entries_view(all@) == kept + after.take(j as int),
        decreases later.len() - j,
    {
        let ghost so_far = entries_view(all@);
        all.push(duplicate(&later[j]));
        proof {
            assert(entries_view(all@) =~= so_far.push(later@[j as int]@));
            assert(kept + after.take(j as int + 1) =~= (kept + after.take(j as int)).push(
                after[j as int],
            ));
        }
        j += 1;
    }
    proof {
        assert(after.take(later.len() as int) =~= after);
    }
    all
}

/// Walks the entries once and reports whether `category` is configured,
/// whether an entry under it is misplaced, whether the entries disagree on
/// the kind, and how the last of them spells it.
pub fn census(entries: &Vec<Entry>, category: &str) -> (found: Census)
    ensures
        found.configured == configured(entries_view(entries@), category@),
        found.misplaced == misplaced(entries_view(entries@), category@),
        found.mixed == mixed(entries_view(entries@), category@),
        text_view(found.spelling) == spelled(entries_view(entries@), category@),
{
    let mut found = Census { configured: false, misplaced: false, mixed: false, spelling: None };
    let ghost all = entries_view(entries@);
    let ghost mut latest: int = 0;
    let mut i: usize = 0;
    while i < entries.len()
        invariant
            i <= entries.len(),
            all == entries_view(entries@),
            found.configured == configured_within(all, i as int, category@),
            found.misplaced == misplaced_within(all, i as int, category@),
            found.mixed == mixed_within(all, i as int, category@),
            text_view(found.spelling) == spelled(all.take(i as int), category@),
            found.spelling is Some ==> 0 <= latest < i && kinded(all[latest], category@)
                && all[latest].path[1] == found.spelling->Some_0@,
            forall|k: int|
                0 <= k < i && kinded(#[trigger] all[k], category@) ==> found.spelling is Some && (
                found.mixed || all[k].path[1] == found.spelling->Some_0@),
        decreases entries.len() - i,
    {
        let entry = &entries[i];
        proof {
            assert(all[i as int] == entry@);
            if entry.path.len() > 0 {
                assert(entry@.path[0] == entry.path@[0]@);
            }
            if entry.path.len() > 1 {
                assert(entry@.path[1] == entry.path@[1]@);
            }
            let next = all.take(i as int + 1);
            assert(next.last() == entry@);
            assert(next.drop_last() =~= all.take(i as int));
        }
        if entry.path.len() > 0 && key_is(&entry.path[0], category) {
            found.configured = true;
            if entry.path.len() < 3 {
                found.misplaced = true;
            }
            if entry.path.len() > 1 {
                let differs = match &found.spelling {
                    Some(earlier) => !(*earlier == entry.path[1]),
                    None => false,
                };
                proof {
                    if differs {
                        assert(kinded(all[latest], category@) && kinded(all[i as int], category@)
                            && all[latest].path[1] != all[i as int].path[1]);
                    }
                }
                if differs {
                    found.mixed = true;
                }
                found.spelling = Some(entry.path[1].clone());
                proof {
                    latest = i as int;
                }
            }
        }
        i += 1;
    }
    proof {
        assert(all.take(entries.len() as int) =~= all);
    }
    found
}

/// Whether some entry lies below the key `category`, `variant`, `name`.
pub fn is_nested(entries: &Vec<Entry>, category: &str, variant: &str, name: &str) -> (found: bool)
    ensures
        found == nested(entries_view(entries@), category@, variant@, name@),
{
    let mut found = false;
    let ghost all = entries_view(entries@);
    let mut i: usize = 0;
    while i < entries.len()
        invariant
            i <= entries.len(),
            all == entries_view(entries@),
            found == nested_within(all, i as int, category@, variant@, name@),
        decreases entries.len() - i,
    {
        let entry = &entries[i];
        proof {
            assert(all[i as int] == entry@);
            if entry.path.len() > 3 {
                assert(entry@.path[0] == entry.path@[0]@);
                assert(entry@.path[1] == entry.path@[1]@);
                assert(entry@.path[2] == entry.path@[2]@);
            }
        }
        if entry.path.len() > 3 && key_is(&entry.path[0], category) && key_is(
            &entry.path[1],
            variant,
        ) && key_is(&entry.path[2], name) {
            found = true;
        }
        i += 1;
    }
    found
}

/// Looks up the field `name` of `variant` under `category`: the value of
/// the latest entry for that key, if there is one.
pub fn lookup(entries: &Vec<Entry>, category: &str, variant: &str, name: &str) -> (value: Option<
    String,
>)
    ensures
        text_view(value) == field(entries_view(entries@), category@, variant@, name@),
{
    let mut value: Option<String> = None;
    let ghost all = entries_view(entries@);
    let mut i: usize = 0;
    while i < entries.len()
        invariant
            i <= entries.len(),
            all == entries_view(entries@),
            text_view(value) == field(all.take(i as int), category@, variant@, name@),
        decreases entries.len() - i,
    {
        let entry = &entries[i];
        proof {
            let next = all.take(i as int + 1);
            assert(next.last() == entry@);
            assert(next.drop_last() =~= all.take(i as int));
        }
        if leads_to(entry, category, variant, name) {
            value = Some(entry.value.clone());
        }
        i += 1;
    }
    proof {
        assert(all.take(entries.len() as int) =~= all);
    }
    value
}

} // verus!
