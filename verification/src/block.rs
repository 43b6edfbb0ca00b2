//! Script blocks: sequences of `key = value` fields and loose values, where
//! a value is a token or a nested block.

use vstd::prelude::*;

use crate::report::{
    report_str, report_str_info, rv, rvi, views, ErrorKey, Report, ReportView, Severity,
};
use crate::token::{Loc, Token};

verus! {

/// A value: a token or a block.
#[derive(Debug)]
pub enum BV {
    Value(Token),
    Block(Block),
}

/// One item of a block: a field `key = value`, or a loose value.
#[derive(Debug)]
pub enum BlockItem {
    Field(Token, BV),
    Value(BV),
}

/// A block `{ ... }` and the place where it opens.
#[derive(Debug)]
pub struct Block {
    pub v: Vec<BlockItem>,
    pub loc: Loc,
}

/// The token of a field `name = token`, if `item` is one.
pub open spec fn item_value_for(item: BlockItem, name: Seq<char>) -> Option<Token> {
    match item {
        BlockItem::Field(k, BV::Value(t)) => if k.s@ == name {
            Some(t)
        } else {
            None
        },
        _ => None,
    }
}

/// The block of a field `name = { ... }`, if `item` is one.
pub open spec fn item_block_for(item: BlockItem, name: Seq<char>) -> Option<Block> {
    match item {
        BlockItem::Field(k, BV::Block(b)) => if k.s@ == name {
            Some(b)
        } else {
            None
        },
        _ => None,
    }
}

/// Whether `item` is a field whose key is `name`.
pub open spec fn item_has_key(item: BlockItem, name: Seq<char>) -> bool {
    match item {
        BlockItem::Field(k, _) => k.s@ == name,
        _ => false,
    }
}

/// Whether some field of `b` has the key `name`.
pub open spec fn block_has_key(b: Block, name: Seq<char>) -> bool {
    exists|i: int| 0 <= i < b.v@.len() && item_has_key(#[trigger] b.v@[i], name)
}

/// The token of the last field `name = token` among `items`.
pub open spec fn last_field_value(items: Seq<BlockItem>, name: Seq<char>) -> Option<Token>
    decreases items.len(),
{
    if items.len() == 0 {
        None
    } else if item_value_for(items.last(), name) is Some {
        item_value_for(items.last(), name)
    } else {
        last_field_value(items.drop_last(), name)
    }
}

/// The block of the last field `name = { ... }` among `items`.
pub open spec fn last_field_block(items: Seq<BlockItem>, name: Seq<char>) -> Option<Block>
    decreases items.len(),
{
    if items.len() == 0 {
        None
    } else if item_block_for(items.last(), name) is Some {
        item_block_for(items.last(), name)
    } else {
        last_field_block(items.drop_last(), name)
    }
}

/// The blocks of all fields `name = { ... }` among `items`, in order.
pub open spec fn field_blocks(items: Seq<BlockItem>, name: Seq<char>) -> Seq<Block>
    decreases items.len(),
{
    if items.len() == 0 {
        Seq::empty()
    } else {
        let rest = field_blocks(items.drop_last(), name);
        match item_block_for(items.last(), name) {
            Some(b) => rest.push(b),
            None => rest,
        }
    }
}

/// The key and token of an item `key = token`.
pub open spec fn item_assignment(item: BlockItem) -> Option<(Token, Token)> {
    match item {
        BlockItem::Field(k, BV::Value(t)) => Some((k, t)),
        _ => None,
    }
}

/// The key and block of an item `key = { ... }`.
pub open spec fn item_definition(item: BlockItem) -> Option<(Token, Block)> {
    match item {
        BlockItem::Field(k, BV::Block(b)) => Some((k, b)),
        _ => None,
    }
}

/// The token of a loose token value.
pub open spec fn item_loose_value(item: BlockItem) -> Option<Token> {
    match item {
        BlockItem::Value(BV::Value(t)) => Some(t),
        _ => None,
    }
}

/// All fields `key = token` among `items`, in order.
pub open spec fn assignments(items: Seq<BlockItem>) -> Seq<(Token, Token)>
    decreases items.len(),
{
    if items.len() == 0 {
        Seq::empty()
    } else {
        let rest = assignments(items.drop_last());
        match item_assignment(items.last()) {
            Some(p) => rest.push(p),
            None => rest,
        }
    }
}

/// All fields `key = { ... }` among `items`, in order.
pub open spec fn definitions(items: Seq<BlockItem>) -> Seq<(Token, Block)>
    decreases items.len(),
{
    if items.len() == 0 {
        Seq::empty()
    } else {
        let rest = definitions(items.drop_last());
        match item_definition(items.last()) {
            Some(p) => rest.push(p),
            None => rest,
        }
    }
}

/// All loose token values among `items`, in order.
pub open spec fn loose_values(items: Seq<BlockItem>) -> Seq<Token>
    decreases items.len(),
{
    if items.len() == 0 {
        Seq::empty()
    } else {
        let rest = loose_values(items.drop_last());
        match item_loose_value(items.last()) {
            Some(t) => rest.push(t),
            None => rest,
        }
    }
}

/// The place of a value.
pub open spec fn bv_loc(bv: BV) -> Loc {
    match bv {
        BV::Value(t) => t.loc,
        BV::Block(b) => b.loc,
    }
}

/// The place of an item: its key for a field, else the value's place.
pub open spec fn item_loc(item: BlockItem) -> Loc {
    match item {
        BlockItem::Field(k, _) => k.loc,
        BlockItem::Value(bv) => bv_loc(bv),
    }
}

impl BV {
    /// The place of the value.
    pub fn loc(&self) -> (r: Loc)
        ensures
            r == bv_loc(*self),
    {
        match self {
            BV::Value(t) => t.loc,
            BV::Block(b) => b.loc,
        }
    }
}

/// The report of [`BlockItem::expect_assignment`] for an item that is not
/// `key = token`.
pub open spec fn expect_assignment_reports(item: BlockItem) -> Seq<ReportView> {
    match item {
        BlockItem::Field(_, BV::Value(_)) => Seq::empty(),
        BlockItem::Field(_, BV::Block(b)) => seq![
            rv(ErrorKey::Structure, Severity::Error, "expected value, found block"@, b.loc),
        ],
        BlockItem::Value(bv) => seq![
            rvi(
                ErrorKey::Structure,
                Severity::Error,
                "unexpected value"@,
                "expected assignment"@,
                bv_loc(bv),
            ),
        ],
    }
}

/// The report of [`BlockItem::expect_block`] for an item that is not a
/// loose block.
pub open spec fn expect_block_reports(item: BlockItem) -> Seq<ReportView> {
    match item {
        BlockItem::Value(BV::Block(_)) => Seq::empty(),
        BlockItem::Value(BV::Value(t)) => seq![
            rv(ErrorKey::Structure, Severity::Error, "expected block, found value"@, t.loc),
        ],
        BlockItem::Field(k, _) => seq![
            rv(ErrorKey::Structure, Severity::Error, "unexpected assignment"@, k.loc),
        ],
    }
}

/// The block of a loose block item.
pub open spec fn item_loose_block(item: BlockItem) -> Option<Block> {
    match item {
        BlockItem::Value(BV::Block(b)) => Some(b),
        _ => None,
    }
}

impl BlockItem {
    /// The key and token of an item `key = token`; any other item is
    /// reported.
    pub fn expect_assignment(&self, reports: &mut Vec<Report>) -> (r: Option<(&Token, &Token)>)
        ensures
            match r {
                Some((k, t)) => item_assignment(*self) == Some((*k, *t)),
                None => item_assignment(*self) is None,
            },
            views(final(reports)@) == views(old(reports)@) + expect_assignment_reports(*self),
    {
        match self {
            BlockItem::Field(k, BV::Value(t)) => {
                assert(views(final(reports)@) =~= views(old(reports)@) + expect_assignment_reports(*self));
                Some((k, t))
            },
            BlockItem::Field(_, BV::Block(b)) => {
                reports.push(
                    report_str(
                        ErrorKey::Structure,
                        Severity::Error,
                        "expected value, found block",
                        b.loc,
                    ),
                );
                assert(views(final(reports)@) =~= views(old(reports)@) + expect_assignment_reports(*self));
                None
            },
            BlockItem::Value(bv) => {
                reports.push(
                    report_str_info(
                        ErrorKey::Structure,
                        Severity::Error,
                        "unexpected value",
                        "expected assignment",
                        bv.loc(),
                    ),
                );
                assert(views(final(reports)@) =~= views(old(reports)@) + expect_assignment_reports(*self));
                None
            },
        }
    }

    /// The block of a loose block item; any other item is reported.
    pub fn expect_block(&self, reports: &mut Vec<Report>) -> (r: Option<&Block>)
        ensures
            match r {
                Some(b) => item_loose_block(*self) == Some(*b),
                None => item_loose_block(*self) is None,
            },
            views(final(reports)@) == views(old(reports)@) + expect_block_reports(*self),
    {
        match self {
            BlockItem::Value(BV::Block(b)) => {
                assert(views(final(reports)@) =~= views(old(reports)@) + expect_block_reports(*self));
                Some(b)
            },
            BlockItem::Value(BV::Value(t)) => {
                reports.push(
                    report_str(
                        ErrorKey::Structure,
                        Severity::Error,
                        "expected block, found value",
                        t.loc,
                    ),
                );
                assert(views(final(reports)@) =~= views(old(reports)@) + expect_block_reports(*self));
                None
            },
            BlockItem::Field(k, _) => {
                reports.push(
                    report_str(ErrorKey::Structure, Severity::Error, "unexpected assignment", k.loc),
                );
                assert(views(final(reports)@) =~= views(old(reports)@) + expect_block_reports(*self));
                None
            },
        }
    }

    /// The place of the item.
    pub fn loc(&self) -> (r: Loc)
        ensures
            r == item_loc(*self),
    {
        match self {
            BlockItem::Field(k, _) => k.loc,
            BlockItem::Value(bv) => bv.loc(),
        }
    }
}

impl Block {
    /// An empty block at `loc`.
    pub fn new(loc: Loc) -> (r: Block)
        ensures
            r.v@.len() == 0,
            r.loc == loc,
    {
        Block { v: Vec::new(), loc }
    }

    /// Appends a field `key = value`.
    pub fn add_field(&mut self, key: Token, value: BV)
        ensures
            final(self).v@ == old(self).v@.push(BlockItem::Field(key, value)),
            final(self).loc == old(self).loc,
    {
        self.v.push(BlockItem::Field(key, value));
    }

    /// Appends a loose value.
    pub fn add_value(&mut self, value: BV)
        ensures
            final(self).v@ == old(self).v@.push(BlockItem::Value(value)),
            final(self).loc == old(self).loc,
    {
        self.v.push(BlockItem::Value(value));
    }

    /// The loose tokens of the block of the last field `name = { ... }`.
    pub fn get_field_list(&self, name: &str) -> (r: Option<Vec<Token>>)
        ensures
            match r {
                Some(v) => last_field_block(self.v@, name@) matches Some(b) && v@ == loose_values(b.v@),
                None => last_field_block(self.v@, name@) is None,
            },
    {
        match self.get_field_block(name) {
            Some(b) => {
                let vals = b.iter_values();
                let mut out: Vec<Token> = Vec::new();
                let mut i: usize = 0;
                while i < vals.len()
                    invariant
                        i <= vals@.len(),
                        vals@.len() == loose_values(b.v@).len(),
                        forall|j: int| 0 <= j < vals@.len() ==> *#[trigger] vals@[j] == loose_values(b.v@)[j],
                        out@ == loose_values(b.v@).take(i as int),
                    decreases vals@.len() - i,
                {
                    out.push(vals[i].dup());
                    i = i + 1;
                    assert(out@ =~= loose_values(b.v@).take(i as int));
                }
                assert(loose_values(b.v@).take(i as int) =~= loose_values(b.v@));
                Some(out)
            },
            None => None,
        }
    }

    /// The token of the last field `name = token`.
    pub fn get_field_value(&self, name: &str) -> (r: Option<&Token>)
        ensures
            match r {
                Some(t) => last_field_value(self.v@, name@) == Some(*t),
                None => last_field_value(self.v@, name@) is None,
            },
    {
        let mut i = self.v.len();
        assert(self.v@.take(i as int) =~= self.v@);
        while i > 0
            invariant
                i <= self.v@.len(),
                last_field_value(self.v@, name@) == last_field_value(
                    self.v@.take(i as int),
                    name@,
                ),
            decreases i,
        {
            let ghost pre = self.v@.take(i as int);
            assert(pre.drop_last() =~= self.v@.take(i - 1));
            assert(pre.last() == self.v@[i - 1]);
            if let BlockItem::Field(k, BV::Value(t)) = &self.v[i - 1] {
                if k.is(name) {
                    return Some(t);
                }
            }
            i = i - 1;
        }
        None
    }

    /// The block of the last field `name = { ... }`.
    pub fn get_field_block(&self, name: &str) -> (r: Option<&Block>)
        ensures
            match r {
                Some(b) => last_field_block(self.v@, name@) == Some(*b),
                None => last_field_block(self.v@, name@) is None,
            },
    {
        let mut i = self.v.len();
        assert(self.v@.take(i as int) =~= self.v@);
        while i > 0
            invariant
                i <= self.v@.len(),
                last_field_block(self.v@, name@) == last_field_block(
                    self.v@.take(i as int),
                    name@,
                ),
            decreases i,
        {
            let ghost pre = self.v@.take(i as int);
            assert(pre.drop_last() =~= self.v@.take(i - 1));
            assert(pre.last() == self.v@[i - 1]);
            if let BlockItem::Field(k, BV::Block(b)) = &self.v[i - 1] {
                if k.is(name) {
                    return Some(b);
                }
            }
            i = i - 1;
        }
        None
    }

    /// Whether some field has the key `name`.
    pub fn has_key(&self, name: &str) -> (r: bool)
        ensures
            r == (exists|i: int| 0 <= i < self.v@.len() && item_has_key(#[trigger] self.v@[i], name@)),
            r == block_has_key(*self, name@),
    {
        let mut i: usize = 0;
        while i < self.v.len()
            invariant
                i <= self.v@.len(),
                forall|j: int| 0 <= j < i ==> !item_has_key(#[trigger] self.v@[j], name@),
            decreases self.v@.len() - i,
        {
            if let BlockItem::Field(k, _) = &self.v[i] {
                if k.is(name) {
                    assert(item_has_key(self.v@[i as int], name@));
                    return true;
                }
            }
            i = i + 1;
        }
        false
    }

    /// Whether the last field `name = token` has the text `value`.
    pub fn field_value_is(&self, name: &str, value: &str) -> (r: bool)
        ensures
            r == (last_field_value(self.v@, name@) matches Some(t) && t.s@ == value@),
    {
        match self.get_field_value(name) {
            Some(t) => t.is(value),
            None => false,
        }
    }

    /// The blocks of all fields `name = { ... }`, in order.
    pub fn get_field_blocks(&self, name: &str) -> (r: Vec<&Block>)
        ensures
            r@.len() == field_blocks(self.v@, name@).len(),
            forall|j: int| 0 <= j < r@.len() ==> *#[trigger] r@[j] == field_blocks(self.v@, name@)[j],
    {
        let mut r: Vec<&Block> = Vec::new();
        let mut i: usize = 0;
        while i < self.v.len()
            invariant
                i <= self.v@.len(),
                r@.len() == field_blocks(self.v@.take(i as int), name@).len(),
                forall|j: int|
                    0 <= j < r@.len() ==> *#[trigger] r@[j] == field_blocks(
                        self.v@.take(i as int),
                        name@,
                    )[j],
            decreases self.v@.len() - i,
        {
            let ghost pre = self.v@.take(i + 1);
            assert(pre.drop_last() =~= self.v@.take(i as int));
            assert(pre.last() == self.v@[i as int]);
            if let BlockItem::Field(k, BV::Block(b)) = &self.v[i] {
                if k.is(name) {
                    r.push(b);
                }
            }
            i = i + 1;
        }
        assert(self.v@.take(self.v@.len() as int) =~= self.v@);
        r
    }

    /// All fields `key = token`, in order.
    pub fn iter_assignments(&self) -> (r: Vec<(&Token, &Token)>)
        ensures
            r@.len() == assignments(self.v@).len(),
            forall|j: int|
                0 <= j < r@.len() ==> (*(#[trigger] r@[j]).0, *r@[j].1) == assignments(self.v@)[j],
    {
        let mut r: Vec<(&Token, &Token)> = Vec::new();
        let mut i: usize = 0;
        while i < self.v.len()
            invariant
                i <= self.v@.len(),
                r@.len() == assignments(self.v@.take(i as int)).len(),
                forall|j: int|
                    0 <= j < r@.len() ==> (*(#[trigger] r@[j]).0, *r@[j].1) == assignments(
                        self.v@.take(i as int),
                    )[j],
            decreases self.v@.len() - i,
        {
            let ghost pre = self.v@.take(i + 1);
            assert(pre.drop_last() =~= self.v@.take(i as int));
            assert(pre.last() == self.v@[i as int]);
            if let BlockItem::Field(k, BV::Value(t)) = &self.v[i] {
                r.push((k, t));
            }
            i = i + 1;
        }
        assert(self.v@.take(self.v@.len() as int) =~= self.v@);
        r
    }

    /// All fields `key = { ... }`, in order.
    pub fn iter_definitions(&self) -> (r: Vec<(&Token, &Block)>)
        ensures
            r@.len() == definitions(self.v@).len(),
            forall|j: int|
                0 <= j < r@.len() ==> (*(#[trigger] r@[j]).0, *r@[j].1) == definitions(self.v@)[j],
    {
        let mut r: Vec<(&Token, &Block)> = Vec::new();
        let mut i: usize = 0;
        while i < self.v.len()
            invariant
                i <= self.v@.len(),
                r@.len() == definitions(self.v@.take(i as int)).len(),
                forall|j: int|
                    0 <= j < r@.len() ==> (*(#[trigger] r@[j]).0, *r@[j].1) == definitions(
                        self.v@.take(i as int),
                    )[j],
            decreases self.v@.len() - i,
        {
            let ghost pre = self.v@.take(i + 1);
            assert(pre.drop_last() =~= self.v@.take(i as int));
            assert(pre.last() == self.v@[i as int]);
            if let BlockItem::Field(k, BV::Block(b)) = &self.v[i] {
                r.push((k, b));
            }
            i = i + 1;
        }
        assert(self.v@.take(self.v@.len() as int) =~= self.v@);
        r
    }

    /// All loose token values, in order.
    pub fn iter_values(&self) -> (r: Vec<&Token>)
        ensures
            r@.len() == loose_values(self.v@).len(),
            forall|j: int| 0 <= j < r@.len() ==> *#[trigger] r@[j] == loose_values(self.v@)[j],
    {
        let mut r: Vec<&Token> = Vec::new();
        let mut i: usize = 0;
        while i < self.v.len()
            invariant
                i <= self.v@.len(),
                r@.len() == loose_values(self.v@.take(i as int)).len(),
                forall|j: int|
                    0 <= j < r@.len() ==> *#[trigger] r@[j] == loose_values(
                        self.v@.take(i as int),
                    )[j],
            decreases self.v@.len() - i,
        {
            let ghost pre = self.v@.take(i + 1);
            assert(pre.drop_last() =~= self.v@.take(i as int));
            assert(pre.last() == self.v@[i as int]);
            if let BlockItem::Value(BV::Value(t)) = &self.v[i] {
                r.push(t);
            }
            i = i + 1;
        }
        assert(self.v@.take(self.v@.len() as int) =~= self.v@);
        r
    }
}

/// Whether the items `a` and `b` are the same, their blocks compared item by
/// item.
pub open spec fn same_items(a: Seq<BlockItem>, b: Seq<BlockItem>) -> bool
    decreases a,
{
    a.len() == b.len() && (a.len() == 0 || (same_items(a.drop_last(), b.drop_last()) && same_item(
        a.last(),
        b.last(),
    )))
}

/// Whether the items `a` and `b` are the same.
pub open spec fn same_item(a: BlockItem, b: BlockItem) -> bool
    decreases a,
{
    match a {
        BlockItem::Field(ka, va) => match b {
            BlockItem::Field(kb, vb) => ka == kb && same_bv(va, vb),
            _ => false,
        },
        BlockItem::Value(va) => match b {
            BlockItem::Value(vb) => same_bv(va, vb),
            _ => false,
        },
    }
}

/// Whether the values `a` and `b` are the same.
pub open spec fn same_bv(a: BV, b: BV) -> bool
    decreases a,
{
    match a {
        BV::Value(t) => match b {
            BV::Value(u) => t == u,
            _ => false,
        },
        BV::Block(x) => match b {
            BV::Block(y) => same_block(x, y),
            _ => false,
        },
    }
}

/// Whether the blocks `a` and `b` are the same: same place, same items.
pub open spec fn same_block(a: Block, b: Block) -> bool
    decreases a,
{
    a.loc == b.loc && same_items(a.v@, b.v@)
}

impl BV {
    /// A copy of the value.
    pub fn copy(&self) -> (r: BV)
        ensures
            same_bv(*self, r),
        decreases *self,
    {
        match self {
            BV::Value(t) => BV::Value(t.dup()),
            BV::Block(b) => BV::Block(b.copy()),
        }
    }
}

impl BlockItem {
    /// A copy of the item.
    pub fn copy(&self) -> (r: BlockItem)
        ensures
            same_item(*self, r),
        decreases *self,
    {
        match self {
            BlockItem::Field(k, v) => BlockItem::Field(k.dup(), v.copy()),
            BlockItem::Value(v) => BlockItem::Value(v.copy()),
        }
    }
}

impl Block {
    /// A copy of the block.
    pub fn copy(&self) -> (r: Block)
        ensures
            same_block(*self, r),
        decreases *self,
    {
        let mut v: Vec<BlockItem> = Vec::new();
        let mut i: usize = 0;
        while i < self.v.len()
            invariant
                i <= self.v@.len(),
                same_items(self.v@.take(i as int), v@),
            decreases self.v@.len() - i,
        {
            let x = self.v[i].copy();
            let ghost before = v@;
            v.push(x);
            proof {
                assert(self.v@.take(i + 1).drop_last() =~= self.v@.take(i as int));
                assert(v@.drop_last() =~= before);
            }
            i = i + 1;
        }
        assert(self.v@.take(self.v@.len() as int) =~= self.v@);
        Block { v, loc: self.loc }
    }
}

} // verus!
