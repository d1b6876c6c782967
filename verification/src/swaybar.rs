//! The block data model of the status line: one renderable unit of
//! status-bar content per source, plus the slot table that keeps the
//! latest block of every source in a fixed order.

use vstd::prelude::*;

verus! {

/// The character sequence held by an optional string.
pub open spec fn opt_string_view(o: Option<String>) -> Option<Seq<char>> {
    match o {
        Some(s) => Some(s@),
        None => None,
    }
}

/// Horizontal alignment of a block's text.
#[derive(Debug, Clone, Copy)]
pub enum BlockAlign {
    Center,
    Right,
    Left,
}

/// Minimum width of a block, in pixels or as a reference text.
#[derive(Debug, Clone)]
pub enum BlockMinWidth {
    Pixels(usize),
    Text(String),
}

/// One renderable unit of status-bar content: the text, an optional
/// highlight, and presentation fields.  Fields that are `None` are left
/// out of the serialized form entirely.
#[derive(Debug, Clone)]
pub struct Block {
    pub full_text: String,
    pub short_text: Option<String>,
    pub color: Option<String>,
    pub background: Option<String>,
    pub border: Option<String>,
    pub border_top: Option<usize>,
    pub border_right: Option<usize>,
    pub border_bottom: Option<usize>,
    pub border_left: Option<usize>,
    pub min_width: Option<BlockMinWidth>,
    pub align: Option<BlockAlign>,
    pub name: Option<String>,
    pub instance: Option<String>,
    pub urgent: Option<bool>,
    pub separator: Option<bool>,
    pub separator_block_width: Option<usize>,
    pub markup: Option<String>,
}

impl Block {
    /// True of a block whose presentation fields are all unset: only the
    /// text and the optional highlight carry information.
    pub open spec fn is_plain(self) -> bool {
        &&& self.short_text is None
        &&& self.color is None
        &&& self.border is None
        &&& self.border_top is None
        &&& self.border_right is None
        &&& self.border_bottom is None
        &&& self.border_left is None
        &&& self.min_width is None
        &&& self.align is None
        &&& self.name is None
        &&& self.instance is None
        &&& self.urgent is None
        &&& self.separator is None
        &&& self.separator_block_width is None
        &&& self.markup is None
    }

    /// A block that carries only a text and an optional highlight color.
    pub fn plain(full_text: String, background: Option<String>) -> (r: Block)
        ensures
            r.full_text == full_text,
            r.background == background,
            r.is_plain(),
    {
        Block {
            full_text,
            short_text: None,
            color: None,
            background,
            border: None,
            border_top: None,
            border_right: None,
            border_bottom: None,
            border_left: None,
            min_width: None,
            align: None,
            name: None,
            instance: None,
            urgent: None,
            separator: None,
            separator_block_width: None,
            markup: None,
        }
    }
}

/// The blocks of the populated slots, in slot order: empty slots are
/// left out entirely.
pub open spec fn spec_present(s: Seq<Option<Block>>) -> Seq<Block>
    decreases s.len(),
{
    if s.len() == 0 {
        Seq::empty()
    } else {
        spec_present(s.drop_last()) + match s.last() {
            Some(b) => seq![b],
            None => Seq::empty(),
        }
    }
}

/// The latest block of every source, one slot per source in a fixed
/// order.  A publish overwrites its slot (last write wins); a snapshot
/// lists the populated slots in order.
pub struct SlotTable {
    pub slots: Vec<Option<Block>>,
}

impl SlotTable {
    /// A table of `n` empty slots.
    pub fn new(n: usize) -> (t: SlotTable)
        ensures
            t.slots@.len() == n,
            forall|i: int| 0 <= i < n ==> t.slots@[i] is None,
    {
        let mut slots: Vec<Option<Block>> = Vec::new();
        let mut k: usize = 0;
        while k < n
            invariant
                0 <= k <= n,
                slots@.len() == k,
                forall|i: int| 0 <= i < k ==> slots@[i] is None,
            decreases n - k,
        {
            slots.push(None);
            k += 1;
        }
        SlotTable { slots }
    }

    /// Publish a block into its slot, overwriting what was there; an
    /// offset beyond the table is ignored.
    pub fn update(&mut self, offset: u8, block: Block)
        ensures
            (offset as int) < old(self).slots@.len() ==> final(self).slots@ == old(
                self,
            ).slots@.update(offset as int, Some(block)),
            (offset as int) >= old(self).slots@.len() ==> *final(self) == *old(self),
    {
        let i = offset as usize;
        if i < self.slots.len() {
            self.slots.set(i, Some(block));
        }
    }

    /// The populated slots' blocks, in slot order.
    pub fn snapshot(&self) -> (r: Vec<&Block>)
        ensures
            r@.len() == spec_present(self.slots@).len(),
            forall|j: int| 0 <= j < r@.len() ==> *r@[j] == spec_present(self.slots@)[j],
    {
        let ghost all = self.slots@;
        let mut r: Vec<&Block> = Vec::new();
        let mut i: usize = 0;
        while i < self.slots.len()
            invariant
                0 <= i <= self.slots@.len(),
                self.slots@ == all,
                r@.len() == spec_present(all.take(i as int)).len(),
                forall|j: int| 0 <= j < r@.len() ==> *r@[j] == spec_present(all.take(i as int))[j],
            decreases self.slots@.len() - i,
        {
            proof {
                assert(all.take(i + 1).drop_last() =~= all.take(i as int));
                assert(all.take(i + 1).last() == all[i as int]);
            }
            let slot: &Option<Block> = &self.slots[i];
            match slot {
                Some(b) => r.push(b),
                None => {},
            }
            i += 1;
        }
        proof {
            assert(all.take(self.slots@.len() as int) =~= all);
        }
        r
    }
}

impl Default for Block {
    /// An empty block: no text, every optional field unset.
    fn default() -> (r: Block)
        ensures
            r.full_text@ == Seq::<char>::empty(),
            r.background is None,
            r.is_plain(),
    {
        Block::plain(String::new(), None)
    }
}

} // verus!
