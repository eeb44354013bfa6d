//! Sprites as the picture unit holds them while it composes a scanline, and
//! their ordering by screen column.

use vstd::prelude::*;

verus! {

/// One entry of the sprite table, decoded.
#[derive(Copy, Clone, Debug)]
pub struct Sprite {
    pub y: u8,
    pub x: u8,
    pub tile_number: u8,
    pub bg_priority: bool,
    pub flip_y: bool,
    pub flip_x: bool,
    pub dmg_palette: bool,
    pub vram_bank: bool,
    pub cgb_palette: u8,
}

impl Default for Sprite {
    fn default() -> (r: Sprite)
        ensures
            r == Sprite::blank(),
    {
        Sprite {
            y: 0,
            x: 0,
            tile_number: 0,
            bg_priority: false,
            flip_y: false,
            flip_x: false,
            dmg_palette: false,
            vram_bank: false,
            cgb_palette: 0,
        }
    }
}

impl Sprite {
    /// The entry that stands for "no sprite".
    pub open spec fn blank() -> Sprite {
        Sprite {
            y: 0,
            x: 0,
            tile_number: 0,
            bg_priority: false,
            flip_y: false,
            flip_x: false,
            dmg_palette: false,
            vram_bank: false,
            cgb_palette: 0,
        }
    }

    /// The sprite that four bytes of the sprite table describe: row, column,
    /// tile, and a byte of flags.
    pub open spec fn of_bytes(y: u8, x: u8, tile_number: u8, flags: u8) -> Sprite {
        Sprite {
            y,
            x,
            tile_number,
            bg_priority: flags & 0x80 != 0,
            flip_y: flags & 0x40 != 0,
            flip_x: flags & 0x20 != 0,
            dmg_palette: flags & 0x10 != 0,
            vram_bank: flags & 0x08 != 0,
            cgb_palette: flags & 0x07,
        }
    }
}

/// `sorted` with `s` put behind the last sprite whose column is not to the
/// right of it.
pub open spec fn inserted_by_x(sorted: Seq<Sprite>, s: Sprite) -> Seq<Sprite>
    decreases sorted.len(),
{
    if sorted.len() == 0 || sorted.last().x <= s.x {
        sorted.push(s)
    } else {
        inserted_by_x(sorted.drop_last(), s).push(sorted.last())
    }
}

/// The sprites in the order of their columns; sprites of one column keep
/// the order they came in.
pub open spec fn sorted_by_x(sprites: Seq<Sprite>) -> Seq<Sprite>
    decreases sprites.len(),
{
    if sprites.len() == 0 {
        sprites
    } else {
        inserted_by_x(sorted_by_x(sprites.drop_last()), sprites.last())
    }
}

/// Whether the columns of `sprites` never decrease.
pub open spec fn ordered_by_x(sprites: Seq<Sprite>) -> bool {
    forall|i: int, j: int| 0 <= i <= j < sprites.len() ==> sprites[i].x <= sprites[j].x
}

/// Inserting into an ordered sequence gives an ordered sequence that is
/// one longer and holds nothing but the old sprites and the new one.
pub proof fn lemma_inserted(sorted: Seq<Sprite>, s: Sprite)
    requires
        ordered_by_x(sorted),
    ensures
        inserted_by_x(sorted, s).len() == sorted.len() + 1,
        ordered_by_x(inserted_by_x(sorted, s)),
        forall|i: int|
            0 <= i < inserted_by_x(sorted, s).len() ==> (#[trigger] inserted_by_x(sorted, s)[i] == s
                || exists|k: int| 0 <= k < sorted.len() && sorted[k] == inserted_by_x(sorted, s)[i]),
    decreases sorted.len(),
{
    if sorted.len() == 0 || sorted.last().x <= s.x {
        let out = sorted.push(s);
        assert forall|i: int| 0 <= i < out.len() implies (#[trigger] out[i] == s || exists|k: int|
            0 <= k < sorted.len() && sorted[k] == out[i]) by {
            if i < sorted.len() {
                assert(sorted[i] == out[i]);
            }
        }
        assert forall|i: int, j: int| 0 <= i <= j < out.len() implies out[i].x <= out[j].x by {
            if j < sorted.len() {
                assert(sorted[i].x <= sorted[j].x);
            } else if i < sorted.len() {
                assert(sorted[i].x <= sorted[sorted.len() - 1].x);
            }
        }
    } else {
        let head = sorted.drop_last();
        let last = sorted.last();
        let inner = inserted_by_x(head, s);
        assert(ordered_by_x(head)) by {
            assert forall|i: int, j: int| 0 <= i <= j < head.len() implies head[i].x
                <= head[j].x by {
                assert(sorted[i].x <= sorted[j].x);
            }
        }
        lemma_inserted(head, s);
        let out = inner.push(last);
        assert forall|i: int| 0 <= i < out.len() implies (#[trigger] out[i] == s || exists|k: int|
            0 <= k < sorted.len() && sorted[k] == out[i]) by {
            if i < inner.len() {
                if inner[i] != s {
                    let k = choose|k: int| 0 <= k < head.len() && head[k] == inner[i];
                    assert(sorted[k] == out[i]);
                }
            } else {
                assert(sorted[sorted.len() - 1] == out[i]);
            }
        }
        assert forall|i: int, j: int| 0 <= i <= j < out.len() implies out[i].x <= out[j].x by {
            if j < inner.len() {
                assert(inner[i].x <= inner[j].x);
            } else if i < inner.len() {
                if inner[i] != s {
                    let k = choose|k: int| 0 <= k < head.len() && head[k] == inner[i];
                    assert(sorted[k].x <= sorted[sorted.len() - 1].x);
                }
            }
        }
    }
}

/// Sorting keeps the number of sprites, puts their columns in order, and
/// yields nothing but sprites that were given.
pub proof fn lemma_sorted(sprites: Seq<Sprite>)
    ensures
        sorted_by_x(sprites).len() == sprites.len(),
        ordered_by_x(sorted_by_x(sprites)),
        forall|i: int|
            0 <= i < sprites.len() ==> exists|k: int|
                0 <= k < sprites.len() && sprites[k] == #[trigger] sorted_by_x(sprites)[i],
    decreases sprites.len(),
{
    if sprites.len() > 0 {
        let head = sprites.drop_last();
        let inner = sorted_by_x(head);
        lemma_sorted(head);
        lemma_inserted(inner, sprites.last());
        let out = sorted_by_x(sprites);
        assert forall|i: int| 0 <= i < sprites.len() implies exists|k: int|
            0 <= k < sprites.len() && sprites[k] == #[trigger] out[i] by {
            if out[i] == sprites.last() {
                assert(sprites[sprites.len() - 1] == out[i]);
            } else {
                let j = choose|j: int| 0 <= j < inner.len() && inner[j] == out[i];
                let k = choose|k: int| 0 <= k < head.len() && head[k] == inner[j];
                assert(sprites[k] == out[i]);
            }
        }
    }
}

/// Sorts at most a scanline's worth of sprites by column, keeping the order
/// of sprites that share a column.
pub fn sort_by_x(sprites: Vec<Sprite>) -> (r: Vec<Sprite>)
    ensures
        r@ == sorted_by_x(sprites@),
{
    let mut out: Vec<Sprite> = Vec::with_capacity(sprites.len());
    let mut n: usize = 0;
    while n < sprites.len()
        invariant
            n <= sprites@.len(),
            out@ == sorted_by_x(sprites@.subrange(0, n as int)),
            out@.len() == n,
        decreases sprites@.len() - n,
    {
        let s = sprites[n];
        let mut pos: usize = out.len();
        proof {
            assert(out@.subrange(0, pos as int) =~= out@);
            assert(inserted_by_x(out@, s) + out@.subrange(pos as int, out@.len() as int)
                =~= inserted_by_x(out@, s));
        }
        while pos > 0 && out[pos - 1].x > s.x
            invariant
                pos <= out@.len(),
                inserted_by_x(out@, s) == inserted_by_x(out@.subrange(0, pos as int), s)
                    + out@.subrange(pos as int, out@.len() as int),
            decreases pos,
        {
            proof {
                let front = out@.subrange(0, pos as int);
                assert(front.drop_last() =~= out@.subrange(0, pos - 1));
                assert(inserted_by_x(front.drop_last(), s).push(front.last()) + out@.subrange(
                    pos as int,
                    out@.len() as int,
                ) =~= inserted_by_x(front.drop_last(), s) + out@.subrange(
                    pos - 1,
                    out@.len() as int,
                ));
            }
            pos -= 1;
        }
        proof {
            let front = out@.subrange(0, pos as int);
            assert(inserted_by_x(front, s) == front.push(s));
            assert(front.push(s) + out@.subrange(pos as int, out@.len() as int) =~= out@.insert(
                pos as int,
                s,
            ));
            let upto = sprites@.subrange(0, n + 1);
            assert(upto.drop_last() =~= sprites@.subrange(0, n as int));
            assert(upto.last() == s);
            lemma_sorted(sprites@.subrange(0, n as int));
            lemma_inserted(out@, s);
        }
        out.insert(pos, s);
        n += 1;
    }
    assert(sprites@.subrange(0, n as int) =~= sprites@);
    out
}

} // verus!
