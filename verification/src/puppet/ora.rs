//! The layer stack of an OpenRaster (`.ora`) image.
use vstd::prelude::*;

verus! {

/// One raster layer of the image: its name, the path of its pixel data inside the
/// archive, and its offset on the canvas.
pub struct Layer {
    pub name: String,
    pub src: String,
    pub x: i32,
    pub y: i32,
}

/// An entry of a layer stack: a layer, or a nested stack.
pub enum StackEntry {
    Layer(Layer),
    Stack(Stack),
}

/// A (possibly nested) named stack of layers, topmost entry first.
pub struct Stack {
    pub name: String,
    pub entries: Vec<StackEntry>,
}

/// The root of `stack.xml`: the canvas size and the top-level stack entries.
pub struct Image {
    pub entries: Vec<StackEntry>,
    pub width: u32,
    pub height: u32,
}

/// The layers of a list of stack entries, in document order, with nested stacks
/// replaced by their own layers.
pub open spec fn stack_layers(entries: Seq<StackEntry>) -> Seq<Layer>
    decreases entries,
{
    if entries.len() == 0 {
        Seq::empty()
    } else {
        let rest = stack_layers(entries.subrange(1, entries.len() as int));
        match entries[0] {
            StackEntry::Layer(l) => seq![l] + rest,
            StackEntry::Stack(s) => {
                proof {
                    assert(decreases_to!(entries => entries[0]));
                }
                stack_layers(s.entries@) + rest
            },
        }
    }
}

/// Flattening distributes over concatenation: the layers of two lists of entries
/// placed one after the other are the layers of the first followed by those of the
/// second.
pub proof fn lemma_stack_layers_concat(a: Seq<StackEntry>, b: Seq<StackEntry>)
    ensures
        stack_layers(a + b) == stack_layers(a) + stack_layers(b),
    decreases a.len(),
{
    if a.len() == 0 {
        assert(a + b =~= b);
    } else {
        let rest_a = a.subrange(1, a.len() as int);
        assert((a + b).subrange(1, (a + b).len() as int) =~= rest_a + b);
        lemma_stack_layers_concat(rest_a, b);
        assert((a + b)[0] == a[0]);
        match a[0] {
            StackEntry::Layer(l) => {
                assert(seq![l] + (stack_layers(rest_a) + stack_layers(b)) =~= (seq![l]
                    + stack_layers(rest_a)) + stack_layers(b));
            },
            StackEntry::Stack(s) => {
                assert(stack_layers(s.entries@) + (stack_layers(rest_a) + stack_layers(b))
                    =~= (stack_layers(s.entries@) + stack_layers(rest_a)) + stack_layers(b));
            },
        }
    }
}

/// A single layer entry flattens to exactly that layer, whatever its name, path or
/// offsets.
pub proof fn lemma_stack_layers_single_layer(l: Layer)
    ensures
        stack_layers(seq![StackEntry::Layer(l)]) == seq![l],
{
    let e = seq![StackEntry::Layer(l)];
    assert(e.subrange(1, 1) =~= Seq::<StackEntry>::empty());
    assert(stack_layers(Seq::<StackEntry>::empty()) =~= Seq::<Layer>::empty());
    assert(e[0] == StackEntry::Layer(l));
    assert(seq![l] + Seq::<Layer>::empty() =~= seq![l]);
}

/// A single stack entry flattens to the layers of its entries, whatever their number.
pub proof fn lemma_stack_layers_single_stack(s: Stack)
    ensures
        stack_layers(seq![StackEntry::Stack(s)]) == stack_layers(s.entries@),
{
    let e = seq![StackEntry::Stack(s)];
    assert(e.subrange(1, 1) =~= Seq::<StackEntry>::empty());
    assert(stack_layers(Seq::<StackEntry>::empty()) =~= Seq::<Layer>::empty());
    assert(e[0] == StackEntry::Stack(s));
    assert(stack_layers(s.entries@) + Seq::<Layer>::empty() =~= stack_layers(s.entries@));
}

/// Every layer entry, wherever it stands in a list, appears in the flattened list at
/// the place of its entry: between the layers of the entries before it and those of
/// the entries after it.
pub proof fn lemma_stack_layers_keep_each_layer(a: Seq<StackEntry>, l: Layer, b: Seq<StackEntry>)
    ensures
        stack_layers(a + seq![StackEntry::Layer(l)] + b) == stack_layers(a) + seq![l]
            + stack_layers(b),
{
    lemma_stack_layers_concat(a + seq![StackEntry::Layer(l)], b);
    lemma_stack_layers_concat(a, seq![StackEntry::Layer(l)]);
    lemma_stack_layers_single_layer(l);
}

/// A single layer entry is placed as that layer, inside exactly the given stacks.
pub proof fn lemma_placed_single_layer(l: Layer, parents: Seq<Seq<char>>)
    ensures
        placed_layers(seq![StackEntry::Layer(l)], parents) == seq![(l, parents)],
{
    let e = seq![StackEntry::Layer(l)];
    assert(e.subrange(1, 1) =~= Seq::<StackEntry>::empty());
    assert(placed_layers(Seq::<StackEntry>::empty(), parents) =~= Seq::<
        (Layer, Seq<Seq<char>>),
    >::empty());
    assert(e[0] == StackEntry::Layer(l));
    assert(seq![(l, parents)] + Seq::<(Layer, Seq<Seq<char>>)>::empty() =~= seq![(l, parents)]);
}

/// Wrapping entries in a stack adds that stack's name after the given stacks, for
/// every layer inside it, whatever the number of entries of the stack.
pub proof fn lemma_placed_single_stack(s: Stack, parents: Seq<Seq<char>>)
    ensures
        placed_layers(seq![StackEntry::Stack(s)], parents) == placed_layers(
            s.entries@,
            parents.push(s.name@),
        ),
{
    let e = seq![StackEntry::Stack(s)];
    assert(e.subrange(1, 1) =~= Seq::<StackEntry>::empty());
    assert(placed_layers(Seq::<StackEntry>::empty(), parents) =~= Seq::<
        (Layer, Seq<Seq<char>>),
    >::empty());
    assert(e[0] == StackEntry::Stack(s));
    let inner = placed_layers(s.entries@, parents.push(s.name@));
    assert(inner + Seq::<(Layer, Seq<Seq<char>>)>::empty() =~= inner);
}

/// Every placed layer lies inside the given stacks: its enclosing names start with
/// them, and a layer placed from a stack entry lies inside that stack too.
pub proof fn lemma_placed_parents_prefix(entries: Seq<StackEntry>, parents: Seq<Seq<char>>)
    ensures
        forall|i: int|
            0 <= i < placed_layers(entries, parents).len() ==> parents.is_prefix_of(
                #[trigger] placed_layers(entries, parents)[i].1,
            ),
    decreases entries,
{
    let pl = placed_layers(entries, parents);
    if entries.len() > 0 {
        let rest = entries.subrange(1, entries.len() as int);
        lemma_placed_parents_prefix(rest, parents);
        let pr = placed_layers(rest, parents);
        match entries[0] {
            StackEntry::Layer(l) => {
                assert forall|i: int| 0 <= i < pl.len() implies parents.is_prefix_of(
                    #[trigger] pl[i].1,
                ) by {
                    if i == 0 {
                        assert(pl[i].1 == parents);
                    } else {
                        assert(pl[i] == pr[i - 1]);
                    }
                }
            },
            StackEntry::Stack(s) => {
                assert(decreases_to!(entries => entries[0]));
                let inner_parents = parents.push(s.name@);
                lemma_placed_parents_prefix(s.entries@, inner_parents);
                let inner = placed_layers(s.entries@, inner_parents);
                assert forall|i: int| 0 <= i < pl.len() implies parents.is_prefix_of(
                    #[trigger] pl[i].1,
                ) by {
                    if i < inner.len() {
                        assert(pl[i] == inner[i]);
                        assert(inner_parents.is_prefix_of(inner[i].1));
                        assert(inner[i].1.len() >= inner_parents.len());
                        assert forall|k: int| 0 <= k < parents.len() implies parents[k]
                            == pl[i].1[k] by {
                            assert(inner_parents[k] == parents[k]);
                        }
                    } else {
                        assert(pl[i] == pr[i - inner.len()]);
                    }
                }
            },
        }
    }
}

/// Collects the layers of `entries`, descending into nested stacks, in document order.
pub fn layers_from_stack(entries: Vec<StackEntry>) -> (layers: Vec<Layer>)
    ensures
        layers@ == stack_layers(entries@),
    decreases entries@,
{
    let ghost all = entries@;
    let mut layers: Vec<Layer> = Vec::new();
    for entry in it: entries
        invariant
            all == it.seq(),
            layers@ == stack_layers(all.take(it.index())),
    {
        let ghost i = it.index();
        proof {
            assert(all.take(i + 1) =~= all.take(i) + seq![all[i]]);
            lemma_stack_layers_concat(all.take(i), seq![all[i]]);
            assert(seq![all[i]].subrange(1, 1) =~= Seq::<StackEntry>::empty());
            assert(stack_layers(Seq::<StackEntry>::empty()) =~= Seq::<Layer>::empty());
        }
        match entry {
            StackEntry::Layer(l) => {
                layers.push(l);
                proof {
                    assert(stack_layers(seq![all[i]]) =~= seq![l]);
                }
            },
            StackEntry::Stack(s) => {
                proof {
                    assert(decreases_to!(all => all[i]));
                }
                let mut inner = layers_from_stack(s.entries);
                layers.append(&mut inner);
                proof {
                    assert(stack_layers(seq![all[i]]) =~= stack_layers(s.entries@));
                }
            },
        }
    }
    proof {
        assert(all.take(all.len() as int) =~= all);
    }
    layers
}

/// The names of a list of strings, as character sequences.
pub open spec fn names_view(names: Seq<String>) -> Seq<Seq<char>> {
    names.map_values(|n: String| n@)
}

/// A layer of the image together with the names of the stacks that enclose it,
/// outermost (root) first.
pub struct StackLayer {
    pub layer: Layer,
    pub parents: Vec<String>,
}

impl StackLayer {
    /// The layer and its enclosing stack names as character sequences.
    pub open spec fn placed(self) -> (Layer, Seq<Seq<char>>) {
        (self.layer, names_view(self.parents@))
    }
}

/// The view of a list of placed layers.
pub open spec fn placed_view(layers: Seq<StackLayer>) -> Seq<(Layer, Seq<Seq<char>>)> {
    layers.map_values(|l: StackLayer| l.placed())
}

/// The layers of a list of stack entries that sit inside the stacks named
/// `parents` (root first), in document order, each with the names of all the stacks
/// that enclose it, root first.
pub open spec fn placed_layers(entries: Seq<StackEntry>, parents: Seq<Seq<char>>) -> Seq<
    (Layer, Seq<Seq<char>>),
>
    decreases entries,
{
    if entries.len() == 0 {
        Seq::empty()
    } else {
        let rest = placed_layers(entries.subrange(1, entries.len() as int), parents);
        match entries[0] {
            StackEntry::Layer(l) => seq![(l, parents)] + rest,
            StackEntry::Stack(s) => {
                proof {
                    assert(decreases_to!(entries => entries[0]));
                }
                placed_layers(s.entries@, parents.push(s.name@)) + rest
            },
        }
    }
}

/// Placing layers distributes over concatenation of the entry lists.
pub proof fn lemma_placed_layers_concat(
    a: Seq<StackEntry>,
    b: Seq<StackEntry>,
    parents: Seq<Seq<char>>,
)
    ensures
        placed_layers(a + b, parents) == placed_layers(a, parents) + placed_layers(b, parents),
    decreases a.len(),
{
    if a.len() == 0 {
        assert(a + b =~= b);
    } else {
        let rest_a = a.subrange(1, a.len() as int);
        assert((a + b).subrange(1, (a + b).len() as int) =~= rest_a + b);
        lemma_placed_layers_concat(rest_a, b, parents);
        assert((a + b)[0] == a[0]);
        let pa = placed_layers(rest_a, parents);
        let pb = placed_layers(b, parents);
        match a[0] {
            StackEntry::Layer(l) => {
                assert(seq![(l, parents)] + (pa + pb) =~= (seq![(l, parents)] + pa) + pb);
            },
            StackEntry::Stack(s) => {
                let inner = placed_layers(s.entries@, parents.push(s.name@));
                assert(inner + (pa + pb) =~= (inner + pa) + pb);
            },
        }
    }
}

/// Recording the enclosing stacks changes neither which layers come out nor their
/// order: the layers of the placed list are the flattened layers.
pub proof fn lemma_placed_layers_are_stack_layers(
    entries: Seq<StackEntry>,
    parents: Seq<Seq<char>>,
)
    ensures
        placed_layers(entries, parents).map_values(|p: (Layer, Seq<Seq<char>>)| p.0)
            == stack_layers(entries),
    decreases entries,
{
    let first = |p: (Layer, Seq<Seq<char>>)| p.0;
    if entries.len() == 0 {
        assert(placed_layers(entries, parents).map_values(first) =~= stack_layers(entries));
    } else {
        let rest = entries.subrange(1, entries.len() as int);
        lemma_placed_layers_are_stack_layers(rest, parents);
        let pr = placed_layers(rest, parents);
        match entries[0] {
            StackEntry::Layer(l) => {
                assert((seq![(l, parents)] + pr).map_values(first) =~= seq![l] + pr.map_values(
                    first,
                ));
            },
            StackEntry::Stack(s) => {
                assert(decreases_to!(entries => entries[0]));
                lemma_placed_layers_are_stack_layers(s.entries@, parents.push(s.name@));
                let inner = placed_layers(s.entries@, parents.push(s.name@));
                assert((inner + pr).map_values(first) =~= inner.map_values(first) + pr.map_values(
                    first,
                ));
            },
        }
        assert(placed_layers(entries, parents).map_values(first) =~= stack_layers(entries));
    }
}

/// A copy of a list of names.
pub(crate) fn copy_names(names: &Vec<String>) -> (copy: Vec<String>)
    ensures
        names_view(copy@) == names_view(names@),
{
    let mut copy: Vec<String> = Vec::new();
    let mut i: usize = 0;
    while i < names.len()
        invariant
            i <= names.len(),
            names_view(copy@) == names_view(names@).take(i as int),
        decreases names.len() - i,
    {
        let name = names[i].clone();
        proof {
            assert(names_view(copy@.push(name)) =~= names_view(copy@).push(name@));
            assert(names_view(names@).take(i + 1) =~= names_view(names@).take(i as int).push(
                names@[i as int]@,
            ));
        }
        copy.push(name);
        i = i + 1;
    }
    proof {
        assert(names_view(names@).take(names.len() as int) =~= names_view(names@));
    }
    copy
}

/// Collects the layers of `entries`, which sit inside the stacks named `parents`
/// (root first), descending into nested stacks, in document order, each with the
/// names of the stacks that enclose it.
pub fn placed_layers_from_stack(entries: Vec<StackEntry>, parents: &Vec<String>) -> (layers: Vec<
    StackLayer,
>)
    ensures
        placed_view(layers@) == placed_layers(entries@, names_view(parents@)),
    decreases entries@,
{
    let ghost all = entries@;
    let ghost pv = names_view(parents@);
    let mut layers: Vec<StackLayer> = Vec::new();
    for entry in it: entries
        invariant
            all == it.seq(),
            pv == names_view(parents@),
            placed_view(layers@) == placed_layers(all.take(it.index()), pv),
    {
        let ghost i = it.index();
        let ghost before = layers@;
        proof {
            assert(all.take(i + 1) =~= all.take(i) + seq![all[i]]);
            lemma_placed_layers_concat(all.take(i), seq![all[i]], pv);
            assert(seq![all[i]].subrange(1, 1) =~= Seq::<StackEntry>::empty());
            assert(placed_layers(Seq::<StackEntry>::empty(), pv) =~= Seq::<
                (Layer, Seq<Seq<char>>),
            >::empty());
        }
        match entry {
            StackEntry::Layer(l) => {
                let placed = StackLayer { layer: l, parents: copy_names(parents) };
                let ghost pl = placed;
                layers.push(placed);
                proof {
                    assert(placed_layers(seq![all[i]], pv) =~= seq![(l, pv)]);
                    assert(placed_view(layers@) =~= placed_view(before).push(pl.placed()));
                }
            },
            StackEntry::Stack(s) => {
                proof {
                    assert(decreases_to!(all => all[i]));
                }
                let Stack { name, entries: inner_entries } = s;
                let ghost name_view = name@;
                let mut inner_parents = copy_names(parents);
                proof {
                    assert(names_view(inner_parents@.push(name)) =~= names_view(
                        inner_parents@,
                    ).push(name_view));
                }
                inner_parents.push(name);
                let mut inner = placed_layers_from_stack(inner_entries, &inner_parents);
                let ghost inner_view = inner@;
                layers.append(&mut inner);
                proof {
                    assert(placed_layers(seq![all[i]], pv) =~= placed_layers(
                        s.entries@,
                        pv.push(s.name@),
                    ));
                    assert(placed_view(layers@) =~= placed_view(before) + placed_view(
                        inner_view,
                    ));
                }
            },
        }
    }
    proof {
        assert(all.take(all.len() as int) =~= all);
    }
    layers
}

/// Why an archive could not be read as an OpenRaster image.
#[derive(Debug, PartialEq, Eq, Structural)]
pub enum OraError {
    /// The archive's `mimetype` entry is not `image/openraster`.
    NotOpenRaster,
}

/// The `mimetype` entry that every OpenRaster archive carries.
pub open spec fn openraster_mimetype() -> Seq<char> {
    "image/openraster"@
}

/// The layers of `image` in the order in which they are drawn, bottommost first, each
/// with the names of the stacks that enclose it, root first.
pub open spec fn render_order(image: Image) -> Seq<(Layer, Seq<Seq<char>>)> {
    placed_layers(image.entries@, Seq::empty()).reverse()
}

/// Reverses a vector.
fn reversed<T>(layers: Vec<T>) -> (out: Vec<T>)
    ensures
        out@ == layers@.reverse(),
{
    let ghost orig = layers@;
    let mut rest = layers;
    let mut out: Vec<T> = Vec::new();
    while rest.len() > 0
        invariant
            orig == rest@ + out@.reverse(),
        decreases rest.len(),
    {
        let ghost before = rest@;
        let last = rest.pop().unwrap();
        proof {
            assert(before == rest@.push(last));
            assert((out@.push(last)).reverse() =~= seq![last] + out@.reverse());
            assert(rest@ + (seq![last] + out@.reverse()) =~= rest@.push(last) + out@.reverse());
        }
        out.push(last);
    }
    proof {
        assert(rest@ =~= Seq::<T>::empty());
        assert(orig =~= out@.reverse());
        assert(out@ =~= orig.reverse());
    }
    out
}

/// Checks that the archive's `mimetype` entry marks it as an OpenRaster image.
pub fn check_mimetype(mimetype: &String) -> (res: Result<(), OraError>)
    ensures
        res is Ok <==> mimetype@ == openraster_mimetype(),
        res is Err ==> res == Err::<(), OraError>(OraError::NotOpenRaster),
{
    let expected = "image/openraster".to_string();
    if *mimetype == expected {
        Ok(())
    } else {
        Err(OraError::NotOpenRaster)
    }
}

/// The layers in drawing order are exactly the image's layers (same names, paths
/// and offsets), in the reverse of document order.
pub proof fn lemma_render_order_layers(entries: Seq<StackEntry>)
    ensures
        placed_layers(entries, Seq::empty()).reverse().map_values(
            |p: (Layer, Seq<Seq<char>>)| p.0,
        ) == stack_layers(entries).reverse(),
        placed_layers(entries, Seq::empty()).reverse().len() == stack_layers(entries).len(),
{
    let first = |p: (Layer, Seq<Seq<char>>)| p.0;
    lemma_placed_layers_are_stack_layers(entries, Seq::empty());
    let pl = placed_layers(entries, Seq::empty());
    assert(pl.map_values(first).len() == pl.len());
    assert(pl.reverse().map_values(first) =~= pl.map_values(first).reverse());
}

/// The canvas width and height of `image`, and its layers, bottommost first, each with
/// the names of the stacks that enclose it, root first.
pub fn read_stack(image: Image) -> (res: (u32, u32, Vec<StackLayer>))
    ensures
        res.0 == image.width,
        res.1 == image.height,
        placed_view(res.2@) == render_order(image),
        res.2@.len() == stack_layers(image.entries@).len(),
        forall|i: int|
            0 <= i < res.2@.len() ==> #[trigger] res.2@[i].layer == stack_layers(
                image.entries@,
            ).reverse()[i],
        forall|i: int|
            0 <= i < res.2@.len() ==> #[trigger] res.2@[i].layer == stack_layers(image.entries@)[res.2@.len() - 1 - i],
{
    let Image { entries, width, height } = image;
    let no_parents: Vec<String> = Vec::new();
    proof {
        assert(names_view(no_parents@) =~= Seq::<Seq<char>>::empty());
    }
    let placed = placed_layers_from_stack(entries, &no_parents);
    let ghost placed_seq = placed@;
    let layers = reversed(placed);
    proof {
        assert(placed_view(layers@) =~= placed_view(placed_seq).reverse());
        lemma_render_order_layers(image.entries@);
        let n = layers@.len();
        assert forall|i: int| 0 <= i < n implies #[trigger] layers@[i].layer == stack_layers(
            image.entries@,
        ).reverse()[i] by {
            assert(placed_view(layers@)[i] == layers@[i].placed());
        }
    }
    (width, height, layers)
}

} // verus!
