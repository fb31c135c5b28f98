//! Layer configuration: the parts that do not depend on tracking values.
use vstd::prelude::*;

use crate::puppet::ora::{copy_names, names_view};

verus! {

/// Whether a layer is shown when its configuration does not say otherwise.
pub fn default_visible() -> (visible: bool)
    ensures
        visible,
{
    true
}

/// The suffix that names a puppet's configuration file after its image file.
pub open spec fn config_suffix() -> Seq<char> {
    ".layertuber.yaml"@
}

/// The file name of the configuration that belongs to the image file
/// `ora_file_name`: `puppet.ora` is configured by `puppet.ora.layertuber.yaml`, in the
/// same directory.
pub fn config_file_name(ora_file_name: &str) -> (name: String)
    ensures
        name@ == ora_file_name@ + config_suffix(),
{
    let mut name = ora_file_name.to_string();
    name.append(".layertuber.yaml");
    name
}

/// The configuration that `table` holds for the layer or stack called `name`: the
/// value of the first entry with that name.
pub open spec fn lookup<C>(table: Seq<(String, C)>, name: Seq<char>) -> Option<C>
    decreases table.len(),
{
    if table.len() == 0 {
        None
    } else if table[0].0@ == name {
        Some(table[0].1)
    } else {
        lookup(table.subrange(1, table.len() as int), name)
    }
}

/// The configurations that apply to a layer, given the names of its enclosing stacks
/// root-first followed by its own name: for each name in that order, its
/// configuration, where `table` holds one.
pub open spec fn matching_configs<C>(table: Seq<(String, C)>, names: Seq<Seq<char>>) -> Seq<C>
    decreases names.len(),
{
    if names.len() == 0 {
        Seq::empty()
    } else {
        let rest = matching_configs(table, names.drop_last());
        match lookup(table, names.last()) {
            Some(c) => rest.push(c),
            None => rest,
        }
    }
}

/// Finds the configuration that `table` holds for `name`.
fn find_config<C: Copy>(table: &Vec<(String, C)>, name: &String) -> (found: Option<C>)
    ensures
        found == lookup(table@, name@),
{
    let mut i: usize = 0;
    assert(table@.subrange(0, table@.len() as int) =~= table@);
    while i < table.len()
        invariant
            i <= table.len(),
            lookup(table@, name@) == lookup(table@.subrange(i as int, table@.len() as int), name@),
        decreases table.len() - i,
    {
        let ghost rest = table@.subrange(i as int, table@.len() as int);
        proof {
            assert(rest.subrange(1, rest.len() as int) =~= table@.subrange(
                i + 1,
                table@.len() as int,
            ));
            assert(rest[0] == table@[i as int]);
        }
        if table[i].0 == *name {
            return Some(table[i].1);
        }
        i = i + 1;
    }
    proof {
        assert(table@.subrange(i as int, table@.len() as int).len() == 0);
    }
    None
}

/// The configurations that apply to a layer whose enclosing stacks and own name are
/// `names` (root-first), in the order in which they are applied.
pub fn layer_configs<C: Copy>(table: &Vec<(String, C)>, names: &Vec<String>) -> (configs: Vec<C>)
    ensures
        configs@ == matching_configs(table@, names@.map_values(|n: String| n@)),
{
    let ghost wanted = names@.map_values(|n: String| n@);
    let mut configs: Vec<C> = Vec::new();
    let mut i: usize = 0;
    while i < names.len()
        invariant
            i <= names.len(),
            wanted == names@.map_values(|n: String| n@),
            configs@ == matching_configs(table@, wanted.take(i as int)),
        decreases names.len() - i,
    {
        proof {
            assert(wanted.take(i + 1).drop_last() =~= wanted.take(i as int));
            assert(wanted.take(i + 1).last() == names@[i as int]@);
        }
        if let Some(c) = find_config(table, &names[i]) {
            configs.push(c);
        }
        i = i + 1;
    }
    proof {
        assert(wanted.take(names.len() as int) =~= wanted);
    }
    configs
}

/// The configurations that apply to the layer called `name` inside the stacks named
/// `parents` (root first): those of its stacks from the root down, then its own.
pub fn rig_layer_configs<C: Copy>(table: &Vec<(String, C)>, parents: &Vec<String>, name: &String) -> (configs: Vec<C>)
    ensures
        configs@ == matching_configs(table@, names_view(parents@).push(name@)),
{
    let mut names = copy_names(parents);
    let own = name.clone();
    proof {
        assert(names_view(names@.push(own)) =~= names_view(names@).push(name@));
    }
    names.push(own);
    layer_configs(table, &names)
}

/// Naming a layer's stacks and the layer itself one after the other applies the
/// configurations of the first names, then those of the later ones.
pub proof fn lemma_matching_configs_concat<C>(
    table: Seq<(String, C)>,
    outer: Seq<Seq<char>>,
    inner: Seq<Seq<char>>,
)
    ensures
        matching_configs(table, outer + inner) == matching_configs(table, outer) + matching_configs(
            table,
            inner,
        ),
    decreases inner.len(),
{
    if inner.len() == 0 {
        assert(outer + inner =~= outer);
        assert(matching_configs(table, outer) + Seq::<C>::empty() =~= matching_configs(table, outer));
    } else {
        assert((outer + inner).drop_last() =~= outer + inner.drop_last());
        assert((outer + inner).last() == inner.last());
        lemma_matching_configs_concat(table, outer, inner.drop_last());
        let a = matching_configs(table, outer);
        let b = matching_configs(table, inner.drop_last());
        match lookup(table, inner.last()) {
            Some(c) => {
                assert((a + b).push(c) =~= a + b.push(c));
            },
            None => {},
        }
    }
}

/// Lookup is by exact name: it finds a configuration exactly when some entry's key
/// equals the name, and then it is the value of the first such entry; an entry whose
/// key differs from the name never matches.
pub proof fn lemma_lookup_exact<C>(table: Seq<(String, C)>, name: Seq<char>)
    ensures
        lookup(table, name) is Some <==> exists|k: int| 0 <= k < table.len() && #[trigger] table[k].0@ == name,
        lookup(table, name) is Some ==> exists|k: int|
            0 <= k < table.len() && #[trigger] table[k].0@ == name && table[k].1 == lookup(
                table,
                name,
            )->0 && forall|j: int| 0 <= j < k ==> table[j].0@ != name,
    decreases table.len(),
{
    if table.len() > 0 {
        let rest = table.subrange(1, table.len() as int);
        lemma_lookup_exact(rest, name);
        if table[0].0@ == name {
            assert(table[0].0@ == name);
        } else {
            if exists|k: int| 0 <= k < table.len() && #[trigger] table[k].0@ == name {
                let k = choose|k: int| 0 <= k < table.len() && #[trigger] table[k].0@ == name;
                assert(k > 0);
                assert(rest[k - 1] == table[k]);
            }
            if lookup(rest, name) is Some {
                let k = choose|k: int|
                    0 <= k < rest.len() && #[trigger] rest[k].0@ == name && rest[k].1 == lookup(
                        rest,
                        name,
                    )->0 && forall|j: int| 0 <= j < k ==> rest[j].0@ != name;
                assert(table[k + 1] == rest[k]);
                assert forall|j: int| 0 <= j < k + 1 implies table[j].0@ != name by {
                    if j > 0 {
                        assert(table[j] == rest[j - 1]);
                    }
                }
                assert(table[k + 1].0@ == name);
            }
        }
    }
}

/// A single name matches exactly the configuration that lookup finds for it, and no
/// other.
pub proof fn lemma_matching_single_name<C>(table: Seq<(String, C)>, name: Seq<char>)
    ensures
        matching_configs(table, seq![name]) == match lookup(table, name) {
            Some(c) => seq![c],
            None => Seq::<C>::empty(),
        },
{
    let names = seq![name];
    assert(names.drop_last() =~= Seq::<Seq<char>>::empty());
    assert(names.last() == name);
    assert(matching_configs(table, Seq::<Seq<char>>::empty()) =~= Seq::<C>::empty());
    assert(Seq::<C>::empty().push(lookup(table, name)->0) =~= seq![lookup(table, name)->0]);
}

} // verus!
