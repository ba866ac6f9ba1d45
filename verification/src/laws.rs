//! Laws of configuration loading, stated over the models that the
//! loader's contracts use.

use vstd::prelude::*;
use crate::settings::{
    cache_store_key, cache_store_of, data_store_key, data_store_of, load, settings_of,
    CacheStoreView, ConfigError, DataStoreView, SettingsView,
};
use crate::source::{
    field, kinded, merged, overridden, related, retained, spelled, EntryView, Source,
};

verus! {

/// Loading depends on what the sources hold and on nothing else: two pairs
/// of sources with the same contents load to the same result.
pub proof fn loading_is_deterministic(
    file: Source,
    environment: Source,
    other_file: Source,
    other_environment: Source,
)
    requires
        file.is_malformed() == other_file.is_malformed(),
        file.entries() == other_file.entries(),
        environment.is_malformed() == other_environment.is_malformed(),
        environment.entries() == other_environment.entries(),
    ensures
        load(file, environment) == load(other_file, other_environment),
{
}

/// Of two lists of entries put one after the other, the second decides a
/// key that it holds.
proof fn later_entries_decide(
    earlier: Seq<EntryView>,
    later: Seq<EntryView>,
    category: Seq<char>,
    variant: Seq<char>,
    name: Seq<char>,
)
    requires
        field(later, category, variant, name) is Some,
    ensures
        field(earlier + later, category, variant, name) == field(later, category, variant, name),
    decreases later.len(),
{
    let both = earlier + later;
    assert(both.last() == later.last());
    if later.last().path != seq![category, variant, name] {
        assert(both.drop_last() =~= earlier + later.drop_last());
        later_entries_decide(earlier, later.drop_last(), category, variant, name);
    }
}

/// Of two lists of entries put one after the other, the first decides a
/// key that the second does not hold.
proof fn earlier_entries_remain(
    earlier: Seq<EntryView>,
    later: Seq<EntryView>,
    category: Seq<char>,
    variant: Seq<char>,
    name: Seq<char>,
)
    requires
        field(later, category, variant, name) is None,
    ensures
        field(earlier + later, category, variant, name) == field(
            earlier,
            category,
            variant,
            name,
        ),
    decreases later.len(),
{
    let both = earlier + later;
    if later.len() == 0 {
        assert(both =~= earlier);
    } else {
        assert(both.last() == later.last());
        assert(both.drop_last() =~= earlier + later.drop_last());
        earlier_entries_remain(earlier, later.drop_last(), category, variant, name);
    }
}

/// What the later layer leaves in place of the earlier one still holds
/// every key that the later layer does not touch.
proof fn untouched_keys_are_retained(
    earlier: Seq<EntryView>,
    later: Seq<EntryView>,
    category: Seq<char>,
    variant: Seq<char>,
    name: Seq<char>,
)
    requires
        !overridden(seq![category, variant, name], later),
    ensures
        field(retained(earlier, later), category, variant, name) == field(
            earlier,
            category,
            variant,
            name,
        ),
    decreases earlier.len(),
{
    if earlier.len() > 0 {
        let rest = retained(earlier.drop_last(), later);
        untouched_keys_are_retained(earlier.drop_last(), later, category, variant, name);
        if !overridden(earlier.last().path, later) {
            assert(rest.push(earlier.last()).drop_last() =~= rest);
        }
    }
}

/// Of two layers, the later one decides a key that it holds: the merged
/// value is the later layer's value.
pub proof fn later_layer_wins(
    earlier: Seq<EntryView>,
    later: Seq<EntryView>,
    category: Seq<char>,
    variant: Seq<char>,
    name: Seq<char>,
)
    requires
        field(later, category, variant, name) is Some,
    ensures
        field(merged(earlier, later), category, variant, name) == field(
            later,
            category,
            variant,
            name,
        ),
{
    later_entries_decide(retained(earlier, later), later, category, variant, name);
}

/// A key that the later layer does not touch, neither itself nor a key
/// above or below it, keeps the earlier layer's value.
pub proof fn earlier_layer_shows_through(
    earlier: Seq<EntryView>,
    later: Seq<EntryView>,
    category: Seq<char>,
    variant: Seq<char>,
    name: Seq<char>,
)
    requires
        field(later, category, variant, name) is None,
        !overridden(seq![category, variant, name], later),
    ensures
        field(merged(earlier, later), category, variant, name) == field(
            earlier,
            category,
            variant,
            name,
        ),
{
    earlier_entries_remain(retained(earlier, later), later, category, variant, name);
    untouched_keys_are_retained(earlier, later, category, variant, name);
}

/// Nothing of the earlier layer stays at a key that the later layer holds,
/// nor above or below it.
pub proof fn overridden_entries_leave(earlier: Seq<EntryView>, later: Seq<EntryView>, i: int)
    requires
        0 <= i < retained(earlier, later).len(),
    ensures
        !overridden(retained(earlier, later)[i].path, later),
        forall|j: int|
            0 <= j < later.len() ==> !related(
                (#[trigger] later[j]).path,
                retained(earlier, later)[i].path,
            ),
    decreases earlier.len(),
{
    if earlier.len() > 0 {
        let rest = retained(earlier.drop_last(), later);
        if i < rest.len() {
            overridden_entries_leave(earlier.drop_last(), later, i);
        }
    }
}

/// A value agrees with a layer's value for its key where the layer holds
/// one.
pub open spec fn agrees(value: Option<Seq<char>>, held: Option<Seq<char>>) -> bool {
    held is Some ==> value == held
}

/// Every field of the snapshot's stores for which `layer` holds a value
/// has that value. The stores' kinds are spelled in the keys as the
/// entries `all` spell them.
pub open spec fn reflects(
    snapshot: SettingsView,
    layer: Seq<EntryView>,
    all: Seq<EntryView>,
) -> bool {
    let data = data_store_key();
    let cache = cache_store_key();
    &&& match (snapshot.data_store, spelled(all, data)) {
        (Some(DataStoreView::Sqlite(store)), Some(kind)) => agrees(
            Some(store.filename),
            field(layer, data, kind, "filename"@),
        ),
        (Some(DataStoreView::Postgres(store)), Some(kind)) => {
            &&& agrees(Some(store.url), field(layer, data, kind, "url"@))
            &&& agrees(store.database, field(layer, data, kind, "database"@))
            &&& agrees(store.tls_client_crt, field(layer, data, kind, "tls_client_crt"@))
            &&& agrees(store.tls_client_key, field(layer, data, kind, "tls_client_key"@))
            &&& agrees(store.tls_ca_crt, field(layer, data, kind, "tls_ca_crt"@))
        },
        (Some(_), None) => false,
        (None, _) => true,
    }
    &&& match (snapshot.cache_store, spelled(all, cache)) {
        (Some(CacheStoreView::Sqlite(store)), Some(kind)) => agrees(
            Some(store.filename),
            field(layer, cache, kind, "filename"@),
        ),
        (Some(CacheStoreView::Redis(store)), Some(kind)) => {
            &&& agrees(Some(store.url), field(layer, cache, kind, "url"@))
            &&& agrees(store.namespace, field(layer, cache, kind, "namespace"@))
        },
        (Some(_), None) => false,
        (None, _) => true,
    }
}

/// Where a key is held by the later of two layers, merging keeps the later
/// layer's value; this is `later_layer_wins` without its condition.
proof fn merged_agrees(
    earlier: Seq<EntryView>,
    later: Seq<EntryView>,
    category: Seq<char>,
    variant: Seq<char>,
    name: Seq<char>,
)
    ensures
        agrees(
            field(merged(earlier, later), category, variant, name),
            field(later, category, variant, name),
        ),
{
    if field(later, category, variant, name) is Some {
        later_layer_wins(earlier, later, category, variant, name);
    }
}

/// The environment wins: in a snapshot that was loaded, every field for
/// which the environment holds a value has the environment's value,
/// whatever the file holds for it.
pub proof fn environment_overrides_file(file: Source, environment: Source)
    ensures
        load(file, environment) matches Ok(snapshot) ==> reflects(
            snapshot,
            environment.entries(),
            merged(file.entries(), environment.entries()),
        ),
{
    let earlier = file.entries();
    let later = environment.entries();
    let data = data_store_key();
    let cache = cache_store_key();
    if let Some(kind) = spelled(merged(earlier, later), data) {
        merged_agrees(earlier, later, data, kind, "filename"@);
        merged_agrees(earlier, later, data, kind, "url"@);
        merged_agrees(earlier, later, data, kind, "database"@);
        merged_agrees(earlier, later, data, kind, "tls_client_crt"@);
        merged_agrees(earlier, later, data, kind, "tls_client_key"@);
        merged_agrees(earlier, later, data, kind, "tls_ca_crt"@);
    }
    if let Some(kind) = spelled(merged(earlier, later), cache) {
        merged_agrees(earlier, later, cache, kind, "filename"@);
        merged_agrees(earlier, later, cache, kind, "url"@);
        merged_agrees(earlier, later, cache, kind, "namespace"@);
    }
}

/// With no file, the snapshot is built from the environment alone.
pub proof fn absent_file_leaves_environment(environment: Source)
    requires
        !environment.is_malformed(),
    ensures
        load(Source::Absent, environment) == settings_of(environment.entries()),
{
    assert(merged(Source::Absent.entries(), environment.entries()) =~= environment.entries());
}

/// Two entries that spell different backend kinds for the data store fail
/// the load.
pub proof fn conflicting_data_stores_fail(entries: Seq<EntryView>, i: int, j: int)
    requires
        0 <= i < entries.len(),
        0 <= j < entries.len(),
        kinded(entries[i], data_store_key()),
        kinded(entries[j], data_store_key()),
        entries[i].path[1] != entries[j].path[1],
    ensures
        data_store_of(entries) is Err,
        settings_of(entries) is Err,
{
}

/// Two entries that spell different backend kinds for the cache store fail
/// the load.
pub proof fn conflicting_cache_stores_fail(entries: Seq<EntryView>, i: int, j: int)
    requires
        0 <= i < entries.len(),
        0 <= j < entries.len(),
        kinded(entries[i], cache_store_key()),
        kinded(entries[j], cache_store_key()),
        entries[i].path[1] != entries[j].path[1],
    ensures
        cache_store_of(entries) is Err,
        settings_of(entries) is Err,
{
}

/// The spelling that the entries give for a kind is that of one of them.
pub proof fn spelling_is_of_an_entry(entries: Seq<EntryView>, category: Seq<char>)
    ensures
        spelled(entries, category) matches Some(kind) ==> exists|i: int|
            0 <= i < entries.len() && kinded(#[trigger] entries[i], category) && entries[i].path[1]
                == kind,
        spelled(entries, category) is None ==> forall|i: int|
            0 <= i < entries.len() ==> !kinded(#[trigger] entries[i], category),
    decreases entries.len(),
{
    if entries.len() > 0 {
        let rest = entries.drop_last();
        let last = entries.len() - 1;
        if kinded(entries.last(), category) {
            assert(kinded(entries[last], category));
        } else {
            spelling_is_of_an_entry(rest, category);
            if spelled(rest, category) is Some {
                let i = choose|i: int|
                    0 <= i < rest.len() && kinded(#[trigger] rest[i], category) && rest[i].path[1]
                        == spelled(rest, category)->Some_0;
                assert(entries[i] == rest[i]);
            } else {
                assert forall|i: int| 0 <= i < entries.len() implies !kinded(
                    #[trigger] entries[i],
                    category,
                ) by {
                    if i < last {
                        assert(entries[i] == rest[i]);
                    }
                }
            }
        }
    }
}

/// A snapshot holds one kind of store per category: where a store was
/// loaded, every entry that names a kind for it spells the same kind.
pub proof fn chosen_kind_stands_alone(entries: Seq<EntryView>, i: int)
    requires
        0 <= i < entries.len(),
    ensures
        data_store_of(entries) is Ok && kinded(entries[i], data_store_key()) ==> Some(
            entries[i].path[1],
        ) == spelled(entries, data_store_key()),
        cache_store_of(entries) is Ok && kinded(entries[i], cache_store_key()) ==> Some(
            entries[i].path[1],
        ) == spelled(entries, cache_store_key()),
{
    spelling_is_of_an_entry(entries, data_store_key());
    spelling_is_of_an_entry(entries, cache_store_key());
}

/// A malformed source fails the load whatever the other source holds.
pub proof fn malformed_source_fails(file: Source, environment: Source)
    requires
        file.is_malformed() || environment.is_malformed(),
    ensures
        load(file, environment) == Err::<SettingsView, ConfigError>(
            ConfigError::MalformedSource,
        ),
{
}

} // verus!
