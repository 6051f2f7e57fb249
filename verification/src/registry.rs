//! Registry snapshot builder: pure, deterministic assembly of the read-only
//! game-definition data (dimensions and biomes) sent to every joining
//! client. Each configured entry gets a dense zero-based identifier equal to
//! its position in the configured order; that identifier is the entry's
//! runtime name for the rest of the process, and the wire-level name of each
//! entry is derived from it by a fixed scheme.

use vstd::prelude::*;

verus! {

/// Runtime identifier of a dimension: its position in the configured
/// dimension list.
#[derive(Clone, Copy, PartialEq, Eq, Structural, Debug)]
pub struct DimensionId(pub u16);

/// Runtime identifier of a biome: its position in the configured biome list.
#[derive(Clone, Copy, PartialEq, Eq, Structural, Debug)]
pub struct BiomeId(pub u16);

/// A configured dimension definition. The element bytes are the serialized
/// registry payload supplied by configuration; the core never looks inside.
pub struct Dimension {
    pub element: Vec<u8>,
}

/// A configured biome definition, carried like [`Dimension`].
pub struct Biome {
    pub element: Vec<u8>,
}

/// One entry of the registry snapshot: the dense identifier assigned at
/// configuration time and the serialized payload of the definition.
pub struct RegistryEntry {
    pub id: i32,
    pub element: Vec<u8>,
}

/// The immutable registry snapshot: all dimension entries under one key,
/// all biome entries under another, and a (currently empty) chat-type
/// registry. Built once at startup and shared with every client join.
pub struct RegistryCodec {
    pub dimension_types: Vec<RegistryEntry>,
    pub biomes: Vec<RegistryEntry>,
    pub chat_types: Vec<RegistryEntry>,
}

/// The bytes of one registry entry as a mathematical pair.
pub open spec fn entry_view(e: RegistryEntry) -> (i32, Seq<u8>) {
    (e.id, e.element@)
}

/// The whole snapshot as mathematical sequences of (identifier, payload)
/// pairs, in registry order.
pub open spec fn codec_view(c: RegistryCodec) -> (
    Seq<(i32, Seq<u8>)>,
    Seq<(i32, Seq<u8>)>,
    Seq<(i32, Seq<u8>)>,
) {
    (
        c.dimension_types@.map_values(|e: RegistryEntry| entry_view(e)),
        c.biomes@.map_values(|e: RegistryEntry| entry_view(e)),
        c.chat_types@.map_values(|e: RegistryEntry| entry_view(e)),
    )
}

/// Holds when `c` is exactly the snapshot that the configured lists `dims`
/// and `biomes` describe: one entry per configured element, in configured
/// order, each carrying its position as identifier and its payload
/// unchanged, and no chat types.
pub open spec fn codec_built_from(c: RegistryCodec, dims: Seq<Dimension>, biomes: Seq<Biome>) -> bool {
    &&& c.dimension_types@.len() == dims.len()
    &&& forall|i: int| 0 <= i < dims.len() ==> (#[trigger] c.dimension_types@[i]).id == i
    &&& forall|i: int| 0 <= i < dims.len() ==> (#[trigger] c.dimension_types@[i]).element@
        =~= dims[i].element@
    &&& c.biomes@.len() == biomes.len()
    &&& forall|i: int| 0 <= i < biomes.len() ==> (#[trigger] c.biomes@[i]).id == i
    &&& forall|i: int| 0 <= i < biomes.len() ==> (#[trigger] c.biomes@[i]).element@
        =~= biomes[i].element@
    &&& c.chat_types@.len() == 0
}

/// Copies the bytes of one payload.
fn copy_bytes(src: &Vec<u8>) -> (r: Vec<u8>)
    ensures
        r@ =~= src@,
{
    let mut out: Vec<u8> = Vec::new();
    let mut i: usize = 0;
    while i < src.len()
        invariant
            i <= src@.len(),
            out@ =~= src@.subrange(0, i as int),
        decreases src@.len() - i,
    {
        out.push(src[i]);
        i = i + 1;
    }
    out
}

/// Builds the registry snapshot from the configured dimension and biome
/// lists: a pure function of its arguments. Identifiers are dense and equal
/// to each entry's configured position; payloads are carried over unchanged.
pub fn make_registry_codec(dimensions: &Vec<Dimension>, biomes: &Vec<Biome>) -> (r: RegistryCodec)
    requires
        dimensions@.len() <= u16::MAX,
        biomes@.len() <= u16::MAX,
    ensures
        codec_built_from(r, dimensions@, biomes@),
{
    let mut dimension_types: Vec<RegistryEntry> = Vec::new();
    let mut i: usize = 0;
    while i < dimensions.len()
        invariant
            i <= dimensions@.len(),
            dimensions@.len() <= u16::MAX,
            dimension_types@.len() == i,
            forall|j: int| 0 <= j < i ==> (#[trigger] dimension_types@[j]).id == j,
            forall|j: int| 0 <= j < i ==> (#[trigger] dimension_types@[j]).element@
                =~= dimensions@[j].element@,
        decreases dimensions@.len() - i,
    {
        let element = copy_bytes(&dimensions[i].element);
        dimension_types.push(RegistryEntry { id: i as i32, element });
        i = i + 1;
    }

    let mut biome_entries: Vec<RegistryEntry> = Vec::new();
    let mut k: usize = 0;
    while k < biomes.len()
        invariant
            k <= biomes@.len(),
            biomes@.len() <= u16::MAX,
            biome_entries@.len() == k,
            forall|j: int| 0 <= j < k ==> (#[trigger] biome_entries@[j]).id == j,
            forall|j: int| 0 <= j < k ==> (#[trigger] biome_entries@[j]).element@
                =~= biomes@[j].element@,
        decreases biomes@.len() - k,
    {
        let element = copy_bytes(&biomes[k].element);
        biome_entries.push(RegistryEntry { id: k as i32, element });
        k = k + 1;
    }

    RegistryCodec { dimension_types, biomes: biome_entries, chat_types: Vec::new() }
}

/// Law: the snapshot is deterministic — two snapshots built from the same
/// ordered configuration lists are identical, entry for entry and byte for
/// byte.
pub proof fn lemma_registry_deterministic(
    a: RegistryCodec,
    b: RegistryCodec,
    dims: Seq<Dimension>,
    biomes: Seq<Biome>,
)
    requires
        codec_built_from(a, dims, biomes),
        codec_built_from(b, dims, biomes),
    ensures
        codec_view(a) == codec_view(b),
{
    let av = codec_view(a);
    let bv = codec_view(b);
    assert(av.0 =~~= bv.0);
    assert(av.1 =~~= bv.1);
    assert(av.2 =~~= bv.2);
}

} // verus!
