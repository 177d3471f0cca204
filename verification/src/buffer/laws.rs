//! What holds of every linear buffer.
//!
//! The laws speak of views. Each operation of [`Buffer`](super::Buffer)
//! states in its contract which view it leaves behind, so what is proved here
//! of views holds of every run of the operations.

use super::BufferView;
use crate::erase::all_zero;
use crate::wire::be32;
use crate::wire::be32_value;
use crate::wire::be64;
use crate::wire::be64_value;
use crate::wire::framed;
use crate::wire::lemma_be32_value_of_be32;
use crate::wire::lemma_be64_value_of_be64;
use crate::wire::MAX_STRING_LEN;
use vstd::prelude::*;

verus! {

/// A value as one of the typed writes takes it.
pub enum Field {
    /// One byte.
    Byte(u8),
    /// A 32-bit number.
    U32(u32),
    /// A 64-bit number.
    U64(u64),
    /// A run of raw bytes.
    Bytes(Seq<u8>),
    /// A length-prefixed string.
    Str(Seq<u8>),
}

/// What a typed read is asked for.
pub enum Kind {
    /// One byte.
    Byte,
    /// A 32-bit number.
    U32,
    /// A 64-bit number.
    U64,
    /// A run of so many raw bytes.
    Bytes(nat),
    /// A length-prefixed string.
    Str,
}

impl Field {
    /// The bytes that the write of this value puts into the buffer.
    pub open spec fn encoded(self) -> Seq<u8> {
        match self {
            Field::Byte(b) => seq![b],
            Field::U32(v) => be32(v),
            Field::U64(v) => be64(v),
            Field::Bytes(s) => s,
            Field::Str(s) => framed(s),
        }
    }

    /// Whether the write accepts the value: a string must not be longer than
    /// [`MAX_STRING_LEN`].
    pub open spec fn accepted(self) -> bool {
        self matches Field::Str(s) ==> s.len() <= MAX_STRING_LEN
    }

    /// The read that asks for a value of this type.
    pub open spec fn kind(self) -> Kind {
        match self {
            Field::Byte(_) => Kind::Byte,
            Field::U32(_) => Kind::U32,
            Field::U64(_) => Kind::U64,
            Field::Bytes(s) => Kind::Bytes(s.len()),
            Field::Str(_) => Kind::Str,
        }
    }
}

/// The reads that ask for the values of `fields`, in order.
pub open spec fn kinds(fields: Seq<Field>) -> Seq<Kind> {
    Seq::new(fields.len(), |i: int| fields[i].kind())
}

/// The number of bytes that `fields` take on the wire.
pub open spec fn encoded_len(fields: Seq<Field>) -> nat
    decreases fields.len(),
{
    if fields.len() == 0 {
        0
    } else {
        fields[0].encoded().len() + encoded_len(fields.drop_first())
    }
}

impl BufferView {
    /// The view after the typed write of `f` succeeded.
    pub open spec fn put(self, f: Field) -> BufferView {
        self.written(f.encoded())
    }

    /// The typed read of kind `k`: the value it returns and the view it
    /// leaves, or `None` where it fails.
    pub open spec fn get(self, k: Kind) -> Option<(Field, BufferView)> {
        match k {
            Kind::Byte => if self.pos < self.len {
                Some((Field::Byte(self.bytes[self.pos as int]), self.advanced(1)))
            } else {
                None
            },
            Kind::U32 => if self.pos + 4 <= self.len {
                Some((Field::U32(be32_value(self.window(4))), self.advanced(4)))
            } else {
                None
            },
            Kind::U64 => if self.pos + 8 <= self.len {
                Some((Field::U64(be64_value(self.window(8))), self.advanced(8)))
            } else {
                None
            },
            Kind::Bytes(n) => if self.pos + n <= self.len {
                Some((Field::Bytes(self.window(n)), self.advanced(n)))
            } else {
                None
            },
            Kind::Str => if self.pos + 4 <= self.len && self.announced() <= MAX_STRING_LEN
                && self.pos + 4 + self.announced() <= self.len {
                Some(
                    (
                        Field::Str(self.advanced(4).window(self.announced())),
                        self.advanced(4 + self.announced()),
                    ),
                )
            } else {
                None
            },
        }
    }

    /// The view after the typed writes of `fields`, one after the other.
    pub open spec fn put_all(self, fields: Seq<Field>) -> BufferView
        decreases fields.len(),
    {
        if fields.len() == 0 {
            self
        } else {
            self.put(fields[0]).put_all(fields.drop_first())
        }
    }

    /// The typed reads of `ks`, one after the other: the values they return
    /// and the view they leave, or `None` where one of them fails.
    pub open spec fn get_all(self, ks: Seq<Kind>) -> Option<(Seq<Field>, BufferView)>
        decreases ks.len(),
    {
        if ks.len() == 0 {
            Some((Seq::empty(), self))
        } else {
            match self.get(ks[0]) {
                None => None,
                Some((f, next)) => match next.get_all(ks.drop_first()) {
                    None => None,
                    Some((fs, last)) => Some((seq![f] + fs, last)),
                },
            }
        }
    }

    /// Every write keeps `pos <= len <= capacity`, moves the cursor behind
    /// what it wrote and leaves the bytes before the old cursor alone.
    pub proof fn lemma_written_keeps_order(self, src: Seq<u8>)
        requires
            self.wf(),
            self.pos + src.len() <= self.capacity(),
        ensures
            self.written(src).wf(),
            self.written(src).capacity() == self.capacity(),
            self.written(src).pos == self.pos + src.len(),
            self.written(src).window_at(self.pos, src.len()) == src,
            forall|i: int| 0 <= i < self.pos ==> self.written(src).bytes[i] == self.bytes[i],
    {
        assert(self.written(src).window_at(self.pos, src.len()) =~= src);
    }

    /// The `n` bytes from offset `from` on.
    pub open spec fn window_at(self, from: nat, n: nat) -> Seq<u8> {
        self.bytes.subrange(from as int, (from + n) as int)
    }

    /// A clean buffer holds zeros only, and burning makes a buffer clean.
    pub proof fn lemma_clean_is_all_zero(self)
        ensures
            self.is_clean() ==> all_zero(self.bytes) && self.pos == 0 && self.len == 0,
            BufferView::fresh(self.capacity()).is_clean(),
            BufferView::fresh(self.capacity()).wf(),
    {
    }
}

/// A typed read depends on the bytes from the cursor on and on the length
/// only as far as it reaches: two views that agree there read the same value.
proof fn lemma_get_agrees(a: BufferView, b: BufferView, f: Field, end: nat)
    requires
        a.pos == b.pos,
        a.pos <= end <= a.len,
        end <= b.len <= b.bytes.len(),
        a.len <= a.bytes.len(),
        forall|i: int| a.pos <= i < end ==> a.bytes[i] == b.bytes[i],
        a.get(f.kind()) == Some((f, a.at(end))),
    ensures
        b.get(f.kind()) == Some((f, b.at(end))),
{
    match f {
        Field::Byte(_) => {},
        Field::U32(_) => {
            assert(a.window(4) =~= b.window(4));
        },
        Field::U64(_) => {
            assert(a.window(8) =~= b.window(8));
        },
        Field::Bytes(s) => {
            assert(a.window(s.len()) =~= b.window(s.len()));
        },
        Field::Str(_) => {
            assert(a.window(4) =~= b.window(4));
            assert(a.advanced(4).window(a.announced()) =~= b.advanced(4).window(b.announced()));
        },
    }
}

/// Round trip of one value: after the typed write of `f`, the read of the
/// same type at the place of the write returns `f` and stops where the write
/// stopped.
pub proof fn lemma_put_then_get(v: BufferView, f: Field)
    requires
        v.wf(),
        f.accepted(),
        v.pos + f.encoded().len() <= v.capacity(),
    ensures
        v.put(f).at(v.pos).get(f.kind()) == Some((f, v.put(f))),
{
    let w = v.put(f);
    let r = w.at(v.pos);
    v.lemma_written_keeps_order(f.encoded());
    match f {
        Field::Byte(b) => {
            assert(r.bytes[r.pos as int] == w.window_at(v.pos, 1)[0]);
        },
        Field::U32(x) => {
            lemma_be32_value_of_be32(x);
            assert(r.window(4) =~= w.window_at(v.pos, 4));
        },
        Field::U64(x) => {
            lemma_be64_value_of_be64(x);
            assert(r.window(8) =~= w.window_at(v.pos, 8));
        },
        Field::Bytes(s) => {
            assert(r.window(s.len()) =~= w.window_at(v.pos, s.len()));
        },
        Field::Str(s) => {
            lemma_be32_value_of_be32(s.len() as u32);
            assert(w.window_at(v.pos, 4 + s.len()) == framed(s));
            assert(r.window(4) =~= framed(s).subrange(0, 4));
            assert(framed(s).subrange(0, 4) =~= be32(s.len() as u32));
            assert(r.announced() == s.len());
            assert(r.advanced(4).window(s.len()) =~= framed(s).subrange(4, 4 + s.len() as int));
            assert(framed(s).subrange(4, 4 + s.len() as int) =~= s);
        },
    }
    assert(r.advanced(f.encoded().len()) == w);
}

/// Later writes leave earlier ones alone: after the writes of `fields` the
/// cursor has moved by their encoded length, and the bytes before the old
/// cursor are what they were.
pub proof fn lemma_put_all_frame(v: BufferView, fields: Seq<Field>)
    requires
        v.wf(),
        v.pos + encoded_len(fields) <= v.capacity(),
    ensures
        v.put_all(fields).wf(),
        v.put_all(fields).capacity() == v.capacity(),
        v.put_all(fields).pos == v.pos + encoded_len(fields),
        forall|i: int| 0 <= i < v.pos ==> v.put_all(fields).bytes[i] == v.bytes[i],
    decreases fields.len(),
{
    if fields.len() > 0 {
        v.lemma_written_keeps_order(fields[0].encoded());
        lemma_put_all_frame(v.put(fields[0]), fields.drop_first());
    }
}

/// Round trip: after any sequence of typed writes, rewinding the cursor to
/// where the first write began and reading the same sequence of types returns
/// exactly the values written, in order, and stops where the writes stopped.
pub proof fn lemma_round_trip(v: BufferView, fields: Seq<Field>)
    requires
        v.wf(),
        forall|i: int| 0 <= i < fields.len() ==> (#[trigger] fields[i]).accepted(),
        v.pos + encoded_len(fields) <= v.capacity(),
    ensures
        v.put_all(fields).at(v.pos).get_all(kinds(fields)) == Some((fields, v.put_all(fields))),
    decreases fields.len(),
{
    let all = v.put_all(fields);
    if fields.len() == 0 {
        assert(kinds(fields) =~= Seq::<Kind>::empty());
        assert(all.at(v.pos) == v);
        assert(fields =~= Seq::<Field>::empty());
    } else {
        let f = fields[0];
        let rest = fields.drop_first();
        let one = v.put(f);
        v.lemma_written_keeps_order(f.encoded());
        lemma_put_then_get(v, f);
        lemma_put_all_frame(one, rest);
        lemma_get_agrees(one.at(v.pos), all.at(v.pos), f, one.pos);
        assert(all.at(v.pos).at(one.pos) == all.at(one.pos));
        assert forall|i: int| 0 <= i < rest.len() implies (#[trigger] rest[i]).accepted() by {
            assert(rest[i] == fields[i + 1]);
        }
        lemma_round_trip(one, rest);
        assert(kinds(fields)[0] == f.kind());
        assert(kinds(fields).drop_first() =~= kinds(rest));
        assert(seq![f] + rest =~= fields);
    }
}

} // verus!
