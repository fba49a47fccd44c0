use vstd::prelude::*;

verus! {

/// Black in the display's 16-bit colour format; black pixels of a layer are transparent.
pub const BLACK: u16 = 0u16;

/// Whether layer number `i` takes part in a merge with `mask`: layers 0 to 2 when their bit
/// is set, any further layer always (no layer type has its bit).
pub open spec fn layer_in_mask(mask: u8, i: int) -> bool {
    i >= 3 || (i == 0 && mask & 1 != 0) || (i == 1 && mask & 2 != 0) || (i == 2 && mask & 4 != 0)
}

/// The colour of pixel `p` after merging `layers` with `mask` onto a black frame: the pixel
/// of the last merged layer where it is not black, else black.
pub open spec fn merged_pixel(layers: Seq<Vec<u16>>, mask: u8, p: int) -> u16
    decreases layers.len(),
{
    if layers.len() == 0 {
        BLACK
    } else if layer_in_mask(mask, layers.len() - 1) && layers.last()@[p] != BLACK {
        layers.last()@[p]
    } else {
        merged_pixel(layers.drop_last(), mask, p)
    }
}

/// Whether layer number `i` takes part in a merge with `mask`.
pub fn layer_selected(mask: u8, i: usize) -> (r: bool)
    ensures
        r == layer_in_mask(mask, i as int),
{
    if i == 0 {
        mask & 1 != 0
    } else if i == 1 {
        mask & 2 != 0
    } else if i == 2 {
        mask & 4 != 0
    } else {
        true
    }
}

/// Composes the frame: clears `base` to black, then paints each layer of `mask`, in order,
/// over it, leaving out the layer's black pixels.
pub fn merge_layers(base: &mut Vec<u16>, layers: &Vec<Vec<u16>>, mask: u8)
    requires
        forall|i: int| 0 <= i < layers@.len() ==> (#[trigger] layers@[i])@.len() == old(base)@.len(),
    ensures
        final(base)@.len() == old(base)@.len(),
        forall|p: int| 0 <= p < final(base)@.len() ==> #[trigger] final(base)@[p] == merged_pixel(layers@, mask, p),
{
    let n = base.len();
    let mut q: usize = 0;
    while q < n
        invariant
            0 <= q <= n,
            base@.len() == n,
            forall|p: int| 0 <= p < q ==> #[trigger] base@[p] == BLACK,
        decreases n - q,
    {
        base.set(q, BLACK);
        q = q + 1;
    }
    let ghost all = layers@;
    let mut l: usize = 0;
    assert(all.take(0) =~= Seq::<Vec<u16>>::empty());
    while l < layers.len()
        invariant
            0 <= l <= all.len(),
            all == layers@,
            base@.len() == n,
            forall|i: int| 0 <= i < all.len() ==> (#[trigger] all[i])@.len() == n,
            forall|p: int| 0 <= p < n ==> #[trigger] base@[p] == merged_pixel(all.take(l as int), mask, p),
        decreases all.len() - l,
    {
        let ghost before = base@;
        assert(all.take(l as int + 1).drop_last() =~= all.take(l as int));
        assert(all.take(l as int + 1).last() == all[l as int]);
        if layer_selected(mask, l) {
            let layer = &layers[l];
            let mut p: usize = 0;
            while p < n
                invariant
                    0 <= p <= n,
                    base@.len() == n,
                    layer@.len() == n,
                    forall|k: int| 0 <= k < p ==> #[trigger] base@[k] == (if layer@[k] != BLACK {
                        layer@[k]
                    } else {
                        before[k]
                    }),
                    forall|k: int| p <= k < n ==> #[trigger] base@[k] == before[k],
                decreases n - p,
            {
                if layer[p] != BLACK {
                    base.set(p, layer[p]);
                }
                p = p + 1;
            }
        }
        l = l + 1;
    }
    assert(all.take(all.len() as int) =~= all);
}

/// The screen position of pixel number `index` of a frame `side` pixels wide, counted row
/// after row.
pub fn pixel_point(index: usize, side: usize) -> (r: (i32, i32))
    requires
        side > 0,
        index < side * side,
        side * side <= i32::MAX,
    ensures
        r.1 == index / side,
        r.0 == index % side,
{
    let y = index / side;
    assert(y * side <= index) by (nonlinear_arith)
        requires
            y == index / side,
            side > 0,
    ;
    let x = index - y * side;
    assert(x == index % side) by (nonlinear_arith)
        requires
            y == index / side,
            x == index - y * side,
            side > 0,
    ;
    assert(y < side) by (nonlinear_arith)
        requires
            y == index / side,
            index < side * side,
            side > 0,
    ;
    (x as i32, y as i32)
}

} // verus!
