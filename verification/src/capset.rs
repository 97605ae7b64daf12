//! The static capability-set catalog: which component serves each
//! capability set, and the bitmask (de)serialization between capability
//! names and the context mask an embedder requests.

use vstd::prelude::*;

use crate::rutabaga_utils::RutabagaComponentType;
use crate::rutabaga_utils::RUTABAGA_CAPSET_CROSS_DOMAIN;
use crate::rutabaga_utils::RUTABAGA_CAPSET_DRM;
use crate::rutabaga_utils::RUTABAGA_CAPSET_GFXSTREAM;
use crate::rutabaga_utils::RUTABAGA_CAPSET_VENUS;
use crate::rutabaga_utils::RUTABAGA_CAPSET_VIRGL;
use crate::rutabaga_utils::RUTABAGA_CAPSET_VIRGL2;

verus! {

/// One catalog entry: a capability-set id, the component that serves it,
/// and its human-readable name.
#[derive(Clone, Copy, Debug)]
pub struct RutabagaCapsetInfo {
    pub capset_id: u32,
    pub component: RutabagaComponentType,
    pub name: &'static str,
}

/// The mathematical content of a catalog entry.
pub struct CapsetInfoView {
    pub id: u32,
    pub component: RutabagaComponentType,
    pub name: Seq<char>,
}

/// The mathematical content of [`RutabagaCapsetInfo`].
pub open spec fn capset_info_view(c: RutabagaCapsetInfo) -> CapsetInfoView {
    CapsetInfoView { id: c.capset_id, component: c.component, name: c.name@ }
}

/// The mathematical content of a list of catalog entries.
pub open spec fn capset_infos_view(s: Seq<RutabagaCapsetInfo>) -> Seq<CapsetInfoView> {
    s.map_values(|c: RutabagaCapsetInfo| capset_info_view(c))
}

/// The immutable process-wide capability-set catalog.
pub open spec fn capset_catalog() -> Seq<CapsetInfoView> {
    seq![
        CapsetInfoView {
            id: RUTABAGA_CAPSET_VIRGL,
            component: RutabagaComponentType::VirglRenderer,
            name: "virgl"@,
        },
        CapsetInfoView {
            id: RUTABAGA_CAPSET_VIRGL2,
            component: RutabagaComponentType::VirglRenderer,
            name: "virgl2"@,
        },
        CapsetInfoView {
            id: RUTABAGA_CAPSET_GFXSTREAM,
            component: RutabagaComponentType::Gfxstream,
            name: "gfxstream"@,
        },
        CapsetInfoView {
            id: RUTABAGA_CAPSET_VENUS,
            component: RutabagaComponentType::VirglRenderer,
            name: "venus"@,
        },
        CapsetInfoView {
            id: RUTABAGA_CAPSET_CROSS_DOMAIN,
            component: RutabagaComponentType::CrossDomain,
            name: "cross-domain"@,
        },
        CapsetInfoView {
            id: RUTABAGA_CAPSET_DRM,
            component: RutabagaComponentType::VirglRenderer,
            name: "drm"@,
        },
    ]
}

/// First catalog entry carrying `name`, if any.
pub open spec fn find_capset_entry_by_name(s: Seq<CapsetInfoView>, name: Seq<char>) -> Option<
    CapsetInfoView,
>
    decreases s.len(),
{
    if s.len() == 0 {
        None
    } else if s[0].name == name {
        Some(s[0])
    } else {
        find_capset_entry_by_name(s.drop_first(), name)
    }
}

/// First catalog entry carrying the capability-set id `id`, if any.
pub open spec fn find_capset_entry_by_id(s: Seq<CapsetInfoView>, id: u32) -> Option<CapsetInfoView>
    decreases s.len(),
{
    if s.len() == 0 {
        None
    } else if s[0].id == id {
        Some(s[0])
    } else {
        find_capset_entry_by_id(s.drop_first(), id)
    }
}

proof fn lemma_find_by_name_props(s: Seq<CapsetInfoView>, name: Seq<char>)
    ensures
        match find_capset_entry_by_name(s, name) {
            Some(e) => e.name == name && exists|i: int| 0 <= i < s.len() && s[i] == e,
            None => forall|i: int| 0 <= i < s.len() ==> s[i].name != name,
        },
    decreases s.len(),
{
    if s.len() == 0 {
    } else if s[0].name == name {
        assert(s[0] == s[0]);
    } else {
        lemma_find_by_name_props(s.drop_first(), name);
        match find_capset_entry_by_name(s.drop_first(), name) {
            Some(e) => {
                let i = choose|i: int| 0 <= i < s.drop_first().len() && s.drop_first()[i] == e;
                assert(s[i + 1] == s.drop_first()[i]);
            },
            None => {
                assert forall|i: int| 0 <= i < s.len() implies s[i].name != name by {
                    if i > 0 {
                        assert(s.drop_first()[i - 1] == s[i]);
                    }
                }
            },
        }
    }
}

pub(crate) proof fn lemma_find_by_id_props(s: Seq<CapsetInfoView>, id: u32)
    ensures
        match find_capset_entry_by_id(s, id) {
            Some(e) => e.id == id && exists|i: int| 0 <= i < s.len() && s[i] == e,
            None => forall|i: int| 0 <= i < s.len() ==> s[i].id != id,
        },
    decreases s.len(),
{
    if s.len() == 0 {
    } else if s[0].id == id {
        assert(s[0] == s[0]);
    } else {
        lemma_find_by_id_props(s.drop_first(), id);
        match find_capset_entry_by_id(s.drop_first(), id) {
            Some(e) => {
                let i = choose|i: int| 0 <= i < s.drop_first().len() && s.drop_first()[i] == e;
                assert(s[i + 1] == s.drop_first()[i]);
            },
            None => {
                assert forall|i: int| 0 <= i < s.len() implies s[i].id != id by {
                    if i > 0 {
                        assert(s.drop_first()[i - 1] == s[i]);
                    }
                }
            },
        }
    }
}

pub(crate) proof fn lemma_catalog_facts()
    ensures
        capset_catalog().len() == 6,
        forall|j: int| 0 <= j < 6 ==> #[trigger] capset_catalog()[j].id == j + 1,
{
    assert(capset_catalog()[0].id == 1);
    assert(capset_catalog()[1].id == 2);
    assert(capset_catalog()[2].id == 3);
    assert(capset_catalog()[3].id == 4);
    assert(capset_catalog()[4].id == 5);
    assert(capset_catalog()[5].id == 6);
}

/// The catalog, as runtime data.
pub fn rutabaga_capsets() -> (r: Vec<RutabagaCapsetInfo>)
    ensures
        capset_infos_view(r@) == capset_catalog(),
{
    let mut r: Vec<RutabagaCapsetInfo> = Vec::new();
    r.push(
        RutabagaCapsetInfo {
            capset_id: RUTABAGA_CAPSET_VIRGL,
            component: RutabagaComponentType::VirglRenderer,
            name: "virgl",
        },
    );
    r.push(
        RutabagaCapsetInfo {
            capset_id: RUTABAGA_CAPSET_VIRGL2,
            component: RutabagaComponentType::VirglRenderer,
            name: "virgl2",
        },
    );
    r.push(
        RutabagaCapsetInfo {
            capset_id: RUTABAGA_CAPSET_GFXSTREAM,
            component: RutabagaComponentType::Gfxstream,
            name: "gfxstream",
        },
    );
    r.push(
        RutabagaCapsetInfo {
            capset_id: RUTABAGA_CAPSET_VENUS,
            component: RutabagaComponentType::VirglRenderer,
            name: "venus",
        },
    );
    r.push(
        RutabagaCapsetInfo {
            capset_id: RUTABAGA_CAPSET_CROSS_DOMAIN,
            component: RutabagaComponentType::CrossDomain,
            name: "cross-domain",
        },
    );
    r.push(
        RutabagaCapsetInfo {
            capset_id: RUTABAGA_CAPSET_DRM,
            component: RutabagaComponentType::VirglRenderer,
            name: "drm",
        },
    );
    proof {
        assert(capset_infos_view(r@) =~= capset_catalog());
    }
    r
}

/// Looks `name` up in the static catalog.
fn find_capset_by_name(capsets: &Vec<RutabagaCapsetInfo>, name: &String) -> (r: Option<
    RutabagaCapsetInfo,
>)
    requires
        capset_infos_view(capsets@) == capset_catalog(),
    ensures
        match r {
            Some(c) => find_capset_entry_by_name(capset_catalog(), name@) == Some(
                capset_info_view(c),
            ),
            None => find_capset_entry_by_name(capset_catalog(), name@) is None,
        },
{
    let ghost cat = capset_catalog();
    let n = capsets.len();
    proof {
        assert(cat.skip(0) =~= cat);
    }
    let mut i: usize = 0;
    while i < n
        invariant
            i <= n,
            n == capsets@.len(),
            capset_infos_view(capsets@) == cat,
            cat == capset_catalog(),
            find_capset_entry_by_name(cat, name@) == find_capset_entry_by_name(
                cat.skip(i as int),
                name@,
            ),
        decreases n - i,
    {
        let entry_name: String = capsets[i].name.to_owned();
        proof {
            assert(cat.skip(i as int)[0] == cat[i as int]);
            assert(cat[i as int] == capset_info_view(capsets@[i as int]));
        }
        if *name == entry_name {
            return Some(capsets[i]);
        }
        proof {
            assert(cat.skip(i as int).drop_first() =~= cat.skip(i as int + 1));
        }
        i = i + 1;
    }
    proof {
        assert(cat.skip(n as int).len() == 0);
    }
    None
}

/// Looks a capability-set id up in an arbitrary list of catalog entries.
pub fn find_capset_by_id(capsets: &Vec<RutabagaCapsetInfo>, capset_id: u32) -> (r: Option<
    RutabagaCapsetInfo,
>)
    ensures
        match r {
            Some(c) => find_capset_entry_by_id(capset_infos_view(capsets@), capset_id) == Some(
                capset_info_view(c),
            ),
            None => find_capset_entry_by_id(capset_infos_view(capsets@), capset_id) is None,
        },
{
    let ghost cat = capset_infos_view(capsets@);
    let n = capsets.len();
    proof {
        assert(cat.skip(0) =~= cat);
    }
    let mut i: usize = 0;
    while i < n
        invariant
            i <= n,
            n == capsets@.len(),
            cat == capset_infos_view(capsets@),
            find_capset_entry_by_id(cat, capset_id) == find_capset_entry_by_id(
                cat.skip(i as int),
                capset_id,
            ),
        decreases n - i,
    {
        proof {
            assert(cat.skip(i as int)[0] == cat[i as int]);
            assert(cat[i as int] == capset_info_view(capsets@[i as int]));
        }
        if capsets[i].capset_id == capset_id {
            return Some(capsets[i]);
        }
        proof {
            assert(cat.skip(i as int).drop_first() =~= cat.skip(i as int + 1));
        }
        i = i + 1;
    }
    proof {
        assert(cat.skip(n as int).len() == 0);
    }
    None
}

/// The mask bit a capability name contributes: the bit indexed by its
/// catalog id, or nothing for a name outside the catalog.
pub open spec fn capset_name_bit(name: Seq<char>) -> u64 {
    match find_capset_entry_by_name(capset_catalog(), name) {
        Some(e) => 1u64 << (e.id as u64),
        None => 0u64,
    }
}

/// The context mask encoding a list of capability names.
pub open spec fn spec_context_mask(names: Seq<Seq<char>>) -> u64
    decreases names.len(),
{
    if names.len() == 0 {
        0u64
    } else {
        spec_context_mask(names.drop_last()) | capset_name_bit(names.last())
    }
}

/// The capability names a context mask selects, in catalog order.
pub open spec fn types_from(s: Seq<CapsetInfoView>, mask: u64) -> Seq<Seq<char>>
    decreases s.len(),
{
    if s.len() == 0 {
        Seq::empty()
    } else {
        types_from(s.drop_last(), mask) + (if mask & (1u64 << (s.last().id as u64)) != 0 {
            seq![s.last().name]
        } else {
            Seq::empty()
        })
    }
}

/// The capability names a context mask selects from the static catalog.
pub open spec fn spec_context_types(mask: u64) -> Seq<Seq<char>> {
    types_from(capset_catalog(), mask)
}

/// Encodes a set of capability names into a context mask: one bit per
/// catalog id; names outside the catalog contribute nothing.
pub fn calculate_context_mask(context_names: Vec<String>) -> (r: u64)
    ensures
        r == spec_context_mask(context_names@.map_values(|s: String| s@)),
{
    let ghost vnames = context_names@.map_values(|s: String| s@);
    let capsets = rutabaga_capsets();
    let mut context_mask: u64 = 0;
    let n = context_names.len();
    let mut i: usize = 0;
    while i < n
        invariant
            i <= n,
            n == context_names@.len(),
            vnames == context_names@.map_values(|s: String| s@),
            capset_infos_view(capsets@) == capset_catalog(),
            context_mask == spec_context_mask(vnames.take(i as int)),
        decreases n - i,
    {
        match find_capset_by_name(&capsets, &context_names[i]) {
            Some(info) => {
                proof {
                    lemma_find_by_name_props(capset_catalog(), context_names@[i as int]@);
                    lemma_catalog_facts();
                }
                assert(info.capset_id < 64);
                context_mask = context_mask | (1u64 << (info.capset_id as u64));
            },
            None => {
                proof {
                    assert(context_mask | 0u64 == context_mask) by (bit_vector);
                }
            },
        }
        proof {
            assert(vnames.take(i as int + 1).drop_last() =~= vnames.take(i as int));
            assert(vnames.take(i as int + 1).last() == vnames[i as int]);
            assert(vnames[i as int] == context_names@[i as int]@);
        }
        i = i + 1;
    }
    proof {
        assert(vnames.take(n as int) =~= vnames);
    }
    context_mask
}

/// Decodes a context mask back into the capability names it selects,
/// in catalog order.
pub fn calculate_context_types(context_mask: u64) -> (r: Vec<String>)
    ensures
        r@.map_values(|s: String| s@) == spec_context_types(context_mask),
{
    let capsets = rutabaga_capsets();
    let mut r: Vec<String> = Vec::new();
    let n = capsets.len();
    let ghost cat = capset_catalog();
    let mut i: usize = 0;
    while i < n
        invariant
            i <= n,
            n == capsets@.len(),
            cat == capset_catalog(),
            capset_infos_view(capsets@) == cat,
            r@.map_values(|s: String| s@) == types_from(cat.take(i as int), context_mask),
        decreases n - i,
    {
        proof {
            lemma_catalog_facts();
            assert(cat[i as int] == capset_info_view(capsets@[i as int]));
            assert(cat[i as int].id == i + 1);
        }
        let ghost prev = r@;
        if context_mask & (1u64 << (capsets[i].capset_id as u64)) != 0 {
            r.push(capsets[i].name.to_owned());
        }
        proof {
            assert(cat.take(i as int + 1).drop_last() =~= cat.take(i as int));
            assert(cat.take(i as int + 1).last() == cat[i as int]);
            assert(r@.map_values(|s: String| s@) =~= types_from(
                cat.take(i as int + 1),
                context_mask,
            ));
        }
        i = i + 1;
    }
    proof {
        assert(cat.take(n as int) =~= cat);
    }
    r
}

proof fn lemma_types_from_contains(s: Seq<CapsetInfoView>, mask: u64, name: Seq<char>)
    ensures
        types_from(s, mask).contains(name) <==> (exists|i: int|
            0 <= i < s.len() && s[i].name == name && mask & (1u64 << (#[trigger] s[i].id as u64))
                != 0),
    decreases s.len(),
{
    if s.len() == 0 {
    } else {
        lemma_types_from_contains(s.drop_last(), mask, name);
        let t = types_from(s.drop_last(), mask);
        let last = s.last();
        if mask & (1u64 << (last.id as u64)) != 0 {
            let w = t + seq![last.name];
            assert(types_from(s, mask) == w);
            assert forall|x: Seq<char>| #[trigger] w.contains(x) implies t.contains(x) || x
                == last.name by {
                let i = choose|i: int| 0 <= i < w.len() && w[i] == x;
                if i < t.len() {
                    assert(t[i] == x);
                } else {
                    assert(w[i] == last.name);
                }
            }
            assert forall|x: Seq<char>| t.contains(x) || x == last.name implies #[trigger] w
                .contains(x) by {
                if t.contains(x) {
                    let i = choose|i: int| 0 <= i < t.len() && t[i] == x;
                    assert(w[i] == x);
                } else {
                    assert(w[t.len() as int] == x);
                }
            }
        } else {
            assert(types_from(s, mask) =~= t);
        }
        // relate an index of `s` to an index of its prefix
        assert forall|i: int|
            0 <= i < s.len() && s[i].name == name && mask & (1u64 << (#[trigger] s[i].id as u64))
                != 0 && i < s.len() - 1 implies (exists|j: int|
            0 <= j < s.drop_last().len() && s.drop_last()[j].name == name && mask & (1u64 << (
            #[trigger] s.drop_last()[j].id as u64)) != 0) by {
            assert(s.drop_last()[i] == s[i]);
        }
        assert forall|j: int|
            0 <= j < s.drop_last().len() && s.drop_last()[j].name == name && mask & (1u64 << (
            #[trigger] s.drop_last()[j].id as u64)) != 0 implies (exists|i: int|
            0 <= i < s.len() && s[i].name == name && mask & (1u64 << (#[trigger] s[i].id as u64))
                != 0) by {
            assert(s[j] == s.drop_last()[j]);
        }
        if s.last().name == name && mask & (1u64 << (last.id as u64)) != 0 {
            assert(s[s.len() - 1].name == name);
        }
    }
}

proof fn lemma_mask_bit(names: Seq<Seq<char>>, j: u64)
    requires
        j < 64,
    ensures
        (spec_context_mask(names) & (1u64 << j) != 0) <==> (exists|i: int|
            0 <= i < names.len() && (find_capset_entry_by_name(capset_catalog(), #[trigger] names[i])
                matches Some(e) && e.id as u64 == j)),
    decreases names.len(),
{
    if names.len() == 0 {
        assert(0u64 & (1u64 << j) == 0) by (bit_vector);
    } else {
        lemma_mask_bit(names.drop_last(), j);
        let m0 = spec_context_mask(names.drop_last());
        let last = names.last();
        assert(last == names[names.len() - 1]);
        match find_capset_entry_by_name(capset_catalog(), last) {
            Some(e) => {
                lemma_find_by_name_props(capset_catalog(), last);
                lemma_catalog_facts();
                let eid = e.id as u64;
                assert(eid < 64);
                assert(((m0 | (1u64 << eid)) & (1u64 << j) != 0) <==> ((m0 & (1u64 << j) != 0) || eid
                    == j)) by (bit_vector)
                    requires
                        eid < 64,
                        j < 64,
                ;
            },
            None => {
                assert(m0 | 0u64 == m0) by (bit_vector);
            },
        }
        assert forall|i: int|
            0 <= i < names.len() - 1 && (find_capset_entry_by_name(
                capset_catalog(),
                #[trigger] names.drop_last()[i],
            ) matches Some(e) && e.id as u64 == j) implies (exists|i2: int|
            0 <= i2 < names.len() && (find_capset_entry_by_name(capset_catalog(), #[trigger] names[i2])
                matches Some(e2) && e2.id as u64 == j)) by {
            assert(names[i] == names.drop_last()[i]);
        }
        assert forall|i: int|
            0 <= i < names.len() - 1 && (find_capset_entry_by_name(capset_catalog(), #[trigger] names[i])
                matches Some(e) && e.id as u64 == j) implies (exists|i2: int|
            0 <= i2 < names.len() - 1 && (find_capset_entry_by_name(
                capset_catalog(),
                #[trigger] names.drop_last()[i2],
            ) matches Some(e2) && e2.id as u64 == j)) by {
            assert(names.drop_last()[i] == names[i]);
        }
    }
}

/// Capability-set round trip: encoding a set of capability names drawn from
/// the static catalog into a context mask and decoding the mask back yields
/// exactly the original set of names, independently of order and
/// multiplicity.
pub proof fn lemma_capset_mask_round_trip(names: Seq<Seq<char>>)
    requires
        forall|i: int|
            0 <= i < names.len() ==> find_capset_entry_by_name(capset_catalog(), #[trigger] names[i])
                is Some,
    ensures
        forall|name: Seq<char>|
            #[trigger] spec_context_types(spec_context_mask(names)).contains(name) <==> names.contains(
                name,
            ),
{
    let mask = spec_context_mask(names);
    let cat = capset_catalog();
    lemma_catalog_facts();
    assert forall|name: Seq<char>| #[trigger] spec_context_types(mask).contains(name) implies names
        .contains(name) by {
        lemma_types_from_contains(cat, mask, name);
        let k = choose|k: int|
            0 <= k < cat.len() && cat[k].name == name && mask & (1u64 << (cat[k].id as u64)) != 0;
        let e = cat[k];
        assert((e.id as u64) < 64);
        lemma_mask_bit(names, e.id as u64);
        let i = choose|i: int|
            0 <= i < names.len() && (find_capset_entry_by_name(cat, #[trigger] names[i]) matches Some(
                e2,
            ) && e2.id as u64 == e.id as u64);
        lemma_find_by_name_props(cat, names[i]);
        let e2 = find_capset_entry_by_name(cat, names[i])->Some_0;
        let k2 = choose|k2: int| 0 <= k2 < cat.len() && cat[k2] == e2;
        assert(cat[k2].id == k2 + 1);
        assert(cat[k].id == k + 1);
        assert(k2 == k);
        assert(e2.name == names[i]);
        assert(name == names[i]);
    }
    assert forall|name: Seq<char>| names.contains(name) implies #[trigger] spec_context_types(
        mask,
    ).contains(name) by {
        let i = choose|i: int| 0 <= i < names.len() && names[i] == name;
        assert(find_capset_entry_by_name(cat, names[i]) is Some);
        let e = find_capset_entry_by_name(cat, names[i])->Some_0;
        lemma_find_by_name_props(cat, names[i]);
        let k = choose|k: int| 0 <= k < cat.len() && cat[k] == e;
        assert(cat[k].id == k + 1);
        assert((e.id as u64) < 64);
        lemma_mask_bit(names, e.id as u64);
        assert(mask & (1u64 << (e.id as u64)) != 0);
        lemma_types_from_contains(cat, mask, name);
        assert(cat[k].name == name && mask & (1u64 << (cat[k].id as u64)) != 0);
    }
}

} // verus!
