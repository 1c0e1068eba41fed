//! Render layers: the visibility partition between the offscreen pass and
//! the display pass.

use vstd::prelude::*;

verus! {

/// Index of one render layer.
pub type Layer = u8;

/// Number of layers a mask can hold.
pub const TOTAL_LAYERS: u8 = 32;

/// The layer that the pixelated pass uses.
pub const PIXELATED_LAYER: Layer = 1;

/// Whether bit `n` of `bits` is set.
pub open spec fn bit_is_set(bits: u32, n: u32) -> bool {
    (bits >> n) & 1 == 1
}

/// A set of render layers, held as a mask of 32 bits.
///
/// A camera draws an entity when their layer sets have a layer in common.
/// An entity without an explicit set is on layer 0.
#[derive(Clone, Copy, Debug, PartialEq, Eq, Structural)]
pub struct RenderLayers {
    bits: u32,
}

impl View for RenderLayers {
    type V = Set<nat>;

    /// The layers in the set.
    closed spec fn view(&self) -> Set<nat> {
        Set::new(|n: nat| n < 32 && bit_is_set(self.bits, n as u32))
    }
}

impl RenderLayers {
    /// The mask behind the set.
    pub closed spec fn spec_bits(self) -> u32 {
        self.bits
    }

    /// The set that holds layer `n` alone.
    pub closed spec fn spec_layer(n: Layer) -> RenderLayers {
        RenderLayers { bits: 1u32 << (n as u32) }
    }

    /// The set that holds layer `n` alone does hold `n`, and nothing else.
    pub proof fn lemma_spec_layer(n: Layer)
        requires
            n < TOTAL_LAYERS,
        ensures
            Self::spec_layer(n)@ == set![n as nat],
            Self::spec_layer(n).spec_bits() == 1u32 << (n as u32),
    {
        let r = Self::spec_layer(n);
        assert forall|m: nat| r@.contains(m) <==> m == n as nat by {
            if m < 32 {
                let mm = m as u32;
                let nn = n as u32;
                assert(bit_is_set(1u32 << nn, mm) <==> mm == nn) by (bit_vector)
                    requires
                        nn < 32,
                        mm < 32,
                ;
            }
        }
        assert(r@ =~= set![n as nat]);
    }

    /// The set that holds layer `n` alone.
    pub fn layer(n: Layer) -> (r: RenderLayers)
        requires
            n < TOTAL_LAYERS,
        ensures
            r == Self::spec_layer(n),
            r@ == set![n as nat],
    {
        proof {
            Self::lemma_spec_layer(n);
        }
        RenderLayers { bits: 1u32 << (n as u32) }
    }

    /// The mask behind the set: bit `n` is set when layer `n` is in it.
    pub fn bits(&self) -> (r: u32)
        ensures
            r == self.spec_bits(),
            forall|n: nat| self@.contains(n) <==> n < 32 && bit_is_set(r, n as u32),
    {
        self.bits
    }

    /// Whether the two sets have a layer in common.
    pub fn intersects(&self, other: &RenderLayers) -> (r: bool)
        ensures
            r <==> !self@.disjoint(other@),
    {
        let r = (self.bits & other.bits) > 0;
        proof {
            lemma_common_bit(self.bits, other.bits);
            if r {
                let n = choose|n: u32|
                    n < 32 && bit_is_set(self.bits, n) && bit_is_set(other.bits, n);
                assert(self@.contains(n as nat) && other@.contains(n as nat));
            } else {
                assert forall|m: nat| !(self@.contains(m) && other@.contains(m)) by {
                    if m < 32 {
                        assert(!(bit_is_set(self.bits, m as u32) && bit_is_set(
                            other.bits,
                            m as u32,
                        )));
                    }
                }
            }
        }
        r
    }
}

impl Default for RenderLayers {
    /// Layer 0 alone: where an entity is that names no layers.
    fn default() -> (r: RenderLayers)
        ensures
            r == RenderLayers::spec_layer(0),
            r@ == set![0nat],
    {
        RenderLayers::layer(0)
    }
}

/// The layers an entity is on: those it names, or layer 0 if it names none.
pub open spec fn layers_of(layers: Option<RenderLayers>) -> Set<nat> {
    match layers {
        Some(layers) => layers@,
        None => set![0nat],
    }
}

/// Whether a camera on the layers `camera` draws an entity on the layers
/// `entity`: they have a layer in common.
pub open spec fn sees(camera: Option<RenderLayers>, entity: Option<RenderLayers>) -> bool {
    !layers_of(camera).disjoint(layers_of(entity))
}

/// Whether a camera on the layers `camera` draws an entity on the layers
/// `entity`.
pub fn visible(camera: Option<RenderLayers>, entity: Option<RenderLayers>) -> (r: bool)
    ensures
        r == sees(camera, entity),
{
    let camera_layers = match camera {
        Some(layers) => layers,
        None => RenderLayers::default(),
    };
    let entity_layers = match entity {
        Some(layers) => layers,
        None => RenderLayers::default(),
    };
    camera_layers.intersects(&entity_layers)
}

/// Two masks share a set bit exactly when their conjunction is not zero.
proof fn lemma_common_bit(a: u32, b: u32)
    ensures
        a & b != 0 <==> exists|n: u32| n < 32 && #[trigger] bit_is_set(a, n) && bit_is_set(b, n),
{
    let x = a & b;
    assert forall|n: u32| n < 32 implies (#[trigger] bit_is_set(x, n) <==> bit_is_set(a, n)
        && bit_is_set(b, n)) by {
        assert(bit_is_set(a & b, n) <==> bit_is_set(a, n) && bit_is_set(b, n)) by (bit_vector);
    }
    if x != 0 {
        lemma_some_bit(x);
        let n = choose|n: u32| n < 32 && bit_is_set(x, n);
        assert(bit_is_set(a, n) && bit_is_set(b, n));
    } else {
        assert forall|n: u32| n < 32 implies !(#[trigger] bit_is_set(a, n) && bit_is_set(
            b,
            n,
        )) by {
            assert(!bit_is_set(0u32, n)) by (bit_vector);
        }
    }
}

/// A mask that is not zero has a set bit.
proof fn lemma_some_bit(x: u32)
    requires
        x != 0,
    ensures
        exists|n: u32| n < 32 && #[trigger] bit_is_set(x, n),
    decreases x,
{
    if bit_is_set(x, 0) {
    } else {
        let y = x >> 1;
        assert(y != 0 && y < x) by (bit_vector)
            requires
                x != 0,
                !bit_is_set(x, 0),
                y == x >> 1,
        ;
        lemma_some_bit(y);
        let m = choose|m: u32| m < 32 && bit_is_set(y, m);
        assert(m < 31 && bit_is_set(x, (m + 1) as u32)) by (bit_vector)
            requires
                m < 32,
                bit_is_set(y, m),
                y == x >> 1,
        ;
    }
}

} // verus!
