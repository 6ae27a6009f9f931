//! The object pool: an ordered collection of typed objects plus a 256-entry
//! colour map and colour palette, with lookups by id and type and the
//! binary stream codec around them.

use vstd::prelude::*;

use crate::object_io::spec_object_encoded_len;
use crate::objects::Colour;
use crate::objects::DataMask;
use crate::objects::LineAttributes;
use crate::objects::Object;
use crate::objects::ObjectId;
use crate::objects::ObjectType;
use crate::objects::PictureGraphic;
use crate::objects::WorkingSet;

verus! {

/// Encoded size of a pool: the sum of its objects' encoded sizes.
pub open spec fn spec_pool_encoded_len(objs: Seq<Object>) -> int
    decreases objs.len(),
{
    if objs.len() == 0 {
        0
    } else {
        spec_pool_encoded_len(objs.drop_last()) + spec_object_encoded_len(objs.last())
    }
}

/// The objects parsed one after another from `d`, the first at `p`, each
/// next at the end of the one before, the last ending at `end`.
pub open spec fn spec_pool_parse_chain(d: Seq<u8>, p: int, objs: Seq<Object>, end: int) -> bool
    decreases objs.len(),
{
    if objs.len() == 0 {
        end == p
    } else {
        exists|m: int|
            #[trigger] crate::object_io::spec_object_read(d, p, objs[0], m)
                && spec_pool_parse_chain(d, m, objs.skip(1), end)
    }
}

/// A parse chain grows at its end: one more object read at `mid` extends a
/// chain that ends there.
proof fn lemma_pool_parse_chain_snoc(
    d: Seq<u8>,
    p: int,
    objs: Seq<Object>,
    mid: int,
    o: Object,
    end: int,
)
    requires
        spec_pool_parse_chain(d, p, objs, mid),
        crate::object_io::spec_object_read(d, mid, o, end),
    ensures
        spec_pool_parse_chain(d, p, objs.push(o), end),
    decreases objs.len(),
{
    if objs.len() == 0 {
        assert(objs.push(o)[0] == o);
        assert(objs.push(o).skip(1) =~= Seq::<Object>::empty());
        assert(spec_pool_parse_chain(d, end, objs.push(o).skip(1), end));
    } else {
        let m = choose|m: int|
            #[trigger] crate::object_io::spec_object_read(d, p, objs[0], m)
                && spec_pool_parse_chain(d, m, objs.skip(1), mid);
        lemma_pool_parse_chain_snoc(d, m, objs.skip(1), mid, o, end);
        assert(objs.push(o)[0] == objs[0]);
        assert(objs.push(o).skip(1) =~= objs.skip(1).push(o));
    }
}

/// The serialized pool: the concatenation of its objects' encodings.
pub open spec fn spec_pool_bytes(objs: Seq<Object>) -> Seq<u8>
    decreases objs.len(),
{
    if objs.len() == 0 {
        Seq::empty()
    } else {
        spec_pool_bytes(objs.drop_last()) + crate::object_io::spec_object_bytes(objs.last())
    }
}

/// The encoded pool size, clipped to what a 32-bit byte count can carry.
pub open spec fn spec_pool_size(objs: Seq<Object>) -> u32 {
    if spec_pool_encoded_len(objs) <= u32::MAX {
        spec_pool_encoded_len(objs) as u32
    } else {
        u32::MAX
    }
}

/// The object pool.
/// Strict order on index entries: by object id, then by pool position.
pub open spec fn spec_pair_lt(a: (u16, usize), b: (u16, usize)) -> bool {
    a.0 < b.0 || (a.0 == b.0 && a.1 < b.1)
}

/// Whether some index entry names pool position `i`.
pub open spec fn spec_index_covers(ix: Seq<(u16, usize)>, i: int) -> bool {
    exists|k: int| 0 <= k < ix.len() && (#[trigger] ix[k]).1 == i
}

/// The lookup index is exactly the pool positions, keyed by object id and
/// kept in strictly increasing (id, position) order.
pub open spec fn spec_index_ok(ix: Seq<(u16, usize)>, objs: Seq<Object>) -> bool {
    &&& ix.len() == objs.len()
    &&& forall|k: int|
        0 <= k < ix.len() ==> (#[trigger] ix[k]).1 < objs.len() && objs[ix[k].1 as int].spec_id()
            == ix[k].0
    &&& forall|k1: int, k2: int|
        0 <= k1 < k2 < ix.len() ==> spec_pair_lt(#[trigger] ix[k1], #[trigger] ix[k2])
    &&& forall|i: int| 0 <= i < objs.len() ==> #[trigger] spec_index_covers(ix, i)
}

pub struct ObjectPool {
    objects: Vec<Object>,
    index: Vec<(u16, usize)>,
    colour_map: Vec<u8>,
    colour_palette: Vec<Colour>,
    temp_size: Option<u32>,
}

impl ObjectPool {
    pub closed spec fn spec_objects(&self) -> Seq<Object> {
        self.objects@
    }

    pub closed spec fn spec_colour_map(&self) -> Seq<u8> {
        self.colour_map@
    }

    pub closed spec fn spec_colour_palette(&self) -> Seq<Colour> {
        self.colour_palette@
    }

    pub closed spec fn spec_cached_size(&self) -> Option<u32> {
        self.temp_size
    }

    pub closed spec fn spec_index(&self) -> Seq<(u16, usize)> {
        self.index@
    }

    /// The colour map and palette always hold exactly 256 entries, and a
    /// cached size, once computed, is the pool's encoded size.
    pub open spec fn wf(self) -> bool {
        &&& self.spec_colour_map().len() == 256
        &&& self.spec_colour_palette().len() == 256
        &&& self.spec_cached_size() matches Some(v) ==> v == spec_pool_size(self.spec_objects())
        &&& spec_index_ok(self.spec_index(), self.spec_objects())
    }

    /// An empty pool with the identity colour map and the standard palette:
    /// the 16 fixed colours, a 6x6x6 colour cube, and black for the
    /// proprietary range.
    pub fn new() -> (r: ObjectPool)
        ensures
            r.wf(),
            r.spec_objects().len() == 0,
            r.spec_cached_size() is None,
            forall|i: int| 0 <= i < 256 ==> #[trigger] r.spec_colour_map()[i] == i,
    {
        let mut colour_map: Vec<u8> = Vec::new();
        let mut i: usize = 0;
        while i < 256
            invariant
                i <= 256,
                colour_map@.len() == i,
                forall|j: int| 0 <= j < i ==> #[trigger] colour_map@[j] == j,
            decreases 256 - i,
        {
            colour_map.push(i as u8);
            i = i + 1;
        }
        ObjectPool {
            objects: Vec::new(),
            index: Vec::new(),
            colour_map,
            colour_palette: Self::default_palette(),
            temp_size: None,
        }
    }

    /// The standard 256-entry palette.
    fn default_palette() -> (r: Vec<Colour>)
        ensures
            r@.len() == 256,
    {
        let mut palette: Vec<Colour> = Vec::new();
        palette.push(Colour { b: 0x00, g: 0x00, r: 0x00, a: 0xFF });
        palette.push(Colour { b: 0xFF, g: 0xFF, r: 0xFF, a: 0xFF });
        palette.push(Colour { b: 0x00, g: 0x99, r: 0x00, a: 0xFF });
        palette.push(Colour { b: 0x99, g: 0x99, r: 0x00, a: 0xFF });
        palette.push(Colour { b: 0x00, g: 0x00, r: 0x99, a: 0xFF });
        palette.push(Colour { b: 0x99, g: 0x00, r: 0x99, a: 0xFF });
        palette.push(Colour { b: 0x00, g: 0x99, r: 0x99, a: 0xFF });
        palette.push(Colour { b: 0xCC, g: 0xCC, r: 0xCC, a: 0xFF });
        palette.push(Colour { b: 0x99, g: 0x99, r: 0x99, a: 0xFF });
        palette.push(Colour { b: 0xFF, g: 0x00, r: 0x00, a: 0xFF });
        palette.push(Colour { b: 0x00, g: 0xFF, r: 0x00, a: 0xFF });
        palette.push(Colour { b: 0xFF, g: 0xFF, r: 0x00, a: 0xFF });
        palette.push(Colour { b: 0x00, g: 0x00, r: 0xFF, a: 0xFF });
        palette.push(Colour { b: 0xFF, g: 0x00, r: 0xFF, a: 0xFF });
        palette.push(Colour { b: 0x00, g: 0xFF, r: 0xFF, a: 0xFF });
        palette.push(Colour { b: 0x99, g: 0x00, r: 0x00, a: 0xFF });
        let mut i: usize = 16;
        while i < 232
            invariant
                16 <= i <= 232,
                palette@.len() == i,
            decreases 232 - i,
        {
            let cube: usize = i - 16;
            let r_level: usize = cube / 36;
            let g_level: usize = (cube / 6) % 6;
            let b_level: usize = cube % 6;
            proof {
                assert(cube < 216 ==> cube / 36 < 6) by (nonlinear_arith);
                assert((cube / 6) % 6 < 6 && cube % 6 < 6) by (nonlinear_arith);
            }
            palette.push(
                Colour {
                    b: (b_level * 0x33) as u8,
                    g: (g_level * 0x33) as u8,
                    r: (r_level * 0x33) as u8,
                    a: 0xFF,
                },
            );
            i = i + 1;
        }
        while i < 256
            invariant
                i <= 256,
                palette@.len() == i,
            decreases 256 - i,
        {
            palette.push(Colour { b: 0x00, g: 0x00, r: 0x00, a: 0xFF });
            i = i + 1;
        }
        palette
    }

    /// Parse a binary object-pool stream object by object until the input
    /// is exhausted or an object cannot be read; what parsed so far is the
    /// pool.
    pub fn from_iop(data: &[u8]) -> (r: ObjectPool)
        ensures
            r.wf(),
            forall|i: int| 0 <= i < 256 ==> #[trigger] r.spec_colour_map()[i] == i,
            exists|end: int|
                0 <= end <= data@.len() && #[trigger] spec_pool_parse_chain(
                    data@,
                    0,
                    r.spec_objects(),
                    end,
                ) && !crate::object_io::spec_object_fits(data@, end),
    {
        let mut op = Self::new();
        let mut pos: usize = 0;
        proof {
            assert(spec_pool_parse_chain(data@, 0, op.objects@, 0));
        }
        loop
            invariant
                pos <= data@.len(),
                op.wf(),
                op.spec_cached_size() is None,
                forall|i: int| 0 <= i < 256 ==> #[trigger] op.spec_colour_map()[i] == i,
                spec_pool_parse_chain(data@, 0, op.objects@, pos as int),
            ensures
                pos <= data@.len(),
                op.wf(),
                op.spec_cached_size() is None,
                forall|i: int| 0 <= i < 256 ==> #[trigger] op.spec_colour_map()[i] == i,
                spec_pool_parse_chain(data@, 0, op.objects@, pos as int),
                !crate::object_io::spec_object_fits(data@, pos as int),
            decreases data@.len() - pos,
        {
            let before = pos;
            match Object::read(data, &mut pos) {
                Some(o) => {
                    proof {
                        lemma_pool_parse_chain_snoc(
                            data@,
                            0,
                            op.objects@,
                            before as int,
                            o,
                            pos as int,
                        );
                    }
                    op.add(o);
                },
                None => {
                    pos = before;
                    break ;
                },
            }
            if pos <= before {
                break ;
            }
        }
        proof {
            assert(spec_pool_parse_chain(data@, 0, op.spec_objects(), pos as int)
                && !crate::object_io::spec_object_fits(data@, pos as int));
        }
        op
    }

    /// Serialize the pool: the concatenation of its objects' encodings, as
    /// many bytes as the encoded sizes sum to.
    pub fn as_iop(&self) -> (r: Vec<u8>)
        ensures
            r@ == spec_pool_bytes(self.spec_objects()),
            r@.len() == spec_pool_encoded_len(self.spec_objects()),
            self.spec_objects().len() == 0 ==> r@.len() == 0,
    {
        let mut data: Vec<u8> = Vec::new();
        let mut i: usize = 0;
        while i < self.objects.len()
            invariant
                i <= self.objects@.len(),
                data@ == spec_pool_bytes(self.objects@.take(i as int)),
                data@.len() == spec_pool_encoded_len(self.objects@.take(i as int)),
            decreases self.objects@.len() - i,
        {
            proof {
                lemma_pool_len_push(self.objects@.take(i as int), self.objects@[i as int]);
                lemma_pool_bytes_push(self.objects@.take(i as int), self.objects@[i as int]);
                assert(self.objects@.take(i + 1) =~= self.objects@.take(i as int).push(
                    self.objects@[i as int],
                ));
            }
            let mut encoded = self.objects[i].write();
            data.append(&mut encoded);
            i = i + 1;
        }
        proof {
            assert(self.objects@.take(self.objects@.len() as int) =~= self.objects@);
        }
        data
    }

    /// Add one object at the end of the pool; a cached size grows with it.
    pub fn add(&mut self, obj: Object)
        requires
            old(self).wf(),
        ensures
            final(self).wf(),
            final(self).spec_objects() == old(self).spec_objects().push(obj),
            final(self).spec_cached_size() is Some <==> old(self).spec_cached_size() is Some,
            final(self).spec_colour_map() == old(self).spec_colour_map(),
            final(self).spec_colour_palette() == old(self).spec_colour_palette(),
    {
        proof {
            lemma_pool_len_push(self.spec_objects(), obj);
            lemma_pool_len_nonneg(self.spec_objects());
            crate::object_io::lemma_encoded_len_bounds(obj);
        }
        if self.temp_size.is_some() {
            let cached = self.temp_size.unwrap();
            let encoded = obj.write();
            let extra: u32 = if encoded.len() <= u32::MAX as usize {
                encoded.len() as u32
            } else {
                u32::MAX
            };
            let grown: u32 = if cached <= u32::MAX - extra {
                cached + extra
            } else {
                u32::MAX
            };
            self.temp_size = Some(grown);
        }
        let id: u16 = obj.id().0;
        let n: usize = self.objects.len();
        let mut k: usize = 0;
        while k < self.index.len() && self.index[k].0 <= id
            invariant
                k <= self.index@.len(),
                spec_index_ok(self.index@, self.objects@),
                forall|j: int| 0 <= j < k ==> (#[trigger] self.index@[j]).0 <= id,
            decreases self.index@.len() - k,
        {
            k = k + 1;
        }
        proof {
            assert forall|j: int| k <= j < self.index@.len() implies (#[trigger] self.index@[j]).0
                > id by {
                if j > k {
                    assert(spec_pair_lt(self.index@[k as int], self.index@[j]));
                }
            }
        }
        let ghost ix0 = self.index@;
        let ghost objs0 = self.objects@;
        self.index.insert(k, (id, n));
        self.objects.push(obj);
        proof {
            let ix1 = self.index@;
            let objs1 = self.objects@;
            assert(ix1 == ix0.insert(k as int, (id, n)));
            assert forall|j: int| 0 <= j < ix1.len() implies (#[trigger] ix1[j]).1 < objs1.len()
                && objs1[ix1[j].1 as int].spec_id() == ix1[j].0 by {
                if j < k {
                    assert(ix1[j] == ix0[j]);
                } else if j == k {
                    assert(ix1[j] == (id, n));
                } else {
                    assert(ix1[j] == ix0[j - 1]);
                }
            }
            assert forall|k1: int, k2: int| 0 <= k1 < k2 < ix1.len() implies spec_pair_lt(
                #[trigger] ix1[k1],
                #[trigger] ix1[k2],
            ) by {
                let a: int = if k1 < k { k1 } else if k1 == k { -1 } else { k1 - 1 };
                let b: int = if k2 < k { k2 } else if k2 == k { -1 } else { k2 - 1 };
                if a >= 0 && b >= 0 {
                    assert(spec_pair_lt(ix0[a], ix0[b]));
                } else if a >= 0 {
                    assert(ix0[a].1 < n);
                } else if b >= 0 {
                    assert(ix0[b].0 > id);
                }
            }
            assert forall|i: int| 0 <= i < objs1.len() implies #[trigger] spec_index_covers(
                ix1,
                i,
            ) by {
                if i < objs0.len() {
                    assert(spec_index_covers(ix0, i));
                    let k0 = choose|k0: int| 0 <= k0 < ix0.len() && (#[trigger] ix0[k0]).1 == i;
                    if k0 < k {
                        assert(ix1[k0].1 == i);
                    } else {
                        assert(ix1[k0 + 1].1 == i);
                    }
                } else {
                    assert(ix1[k as int].1 == i);
                }
            }
        }
    }

    /// The size of the serialized pool in bytes (clipped to 32 bits),
    /// cached once computed: the number later promised to the terminal.
    pub fn size(&mut self) -> (r: u32)
        requires
            old(self).wf(),
        ensures
            final(self).wf(),
            final(self).spec_objects() == old(self).spec_objects(),
            r == spec_pool_size(old(self).spec_objects()),
    {
        proof {
            lemma_pool_len_nonneg(self.spec_objects());
        }
        match self.temp_size {
            Some(len) => len,
            None => {
                let data = self.as_iop();
                let len: u32 = if data.len() <= u32::MAX as usize {
                    data.len() as u32
                } else {
                    u32::MAX
                };
                self.temp_size = Some(len);
                len
            },
        }
    }

    /// The first object in insertion order holding the given id, found
    /// through the sorted index in logarithmically many probes.
    pub fn object_by_id(&self, id: ObjectId) -> (r: Option<&Object>)
        requires
            self.wf(),
        ensures
            r matches Some(o) ==> o.spec_id() == id.0 && exists|i: int|
                0 <= i < self.spec_objects().len() && #[trigger] self.spec_objects()[i] == *o
                    && forall|j: int|
                    0 <= j < i ==> (#[trigger] self.spec_objects()[j]).spec_id() != id.0,
            r is None ==> forall|i: int|
                0 <= i < self.spec_objects().len() ==> (#[trigger] self.spec_objects()[i]).spec_id()
                    != id.0,
    {
        let mut lo: usize = 0;
        let mut hi: usize = self.index.len();
        while lo < hi
            invariant
                self.wf(),
                lo <= hi <= self.index@.len(),
                forall|j: int| 0 <= j < lo ==> (#[trigger] self.index@[j]).0 < id.0,
                forall|j: int| hi <= j < self.index@.len() ==> (#[trigger] self.index@[j]).0 >= id.0,
            decreases hi - lo,
        {
            let mid = lo + (hi - lo) / 2;
            if self.index[mid].0 < id.0 {
                proof {
                    assert forall|j: int| 0 <= j < mid + 1 implies (#[trigger] self.index@[j]).0
                        < id.0 by {
                        if j < mid {
                            assert(spec_pair_lt(self.index@[j], self.index@[mid as int]));
                        }
                    }
                }
                lo = mid + 1;
            } else {
                proof {
                    assert forall|j: int| mid <= j < self.index@.len() implies (
                    #[trigger] self.index@[j]).0 >= id.0 by {
                        if j > mid {
                            assert(spec_pair_lt(self.index@[mid as int], self.index@[j]));
                        }
                    }
                }
                hi = mid;
            }
        }
        if lo < self.index.len() && self.index[lo].0 == id.0 {
            let i = self.index[lo].1;
            proof {
                let ix = self.index@;
                let objs = self.objects@;
                let ii = ix[lo as int].1 as int;
                assert(objs[ii].spec_id() == id.0);
                assert forall|j: int| 0 <= j < ii implies (#[trigger] objs[j]).spec_id() != id.0 by {
                    if objs[j].spec_id() == id.0 {
                        assert(spec_index_covers(ix, j));
                        let k2 = choose|k2: int| 0 <= k2 < ix.len() && (#[trigger] ix[k2]).1 == j;
                        assert(ix[k2].0 == id.0);
                        if k2 < lo {
                            assert(ix[k2].0 < id.0);
                        } else if k2 > lo {
                            assert(spec_pair_lt(ix[lo as int], ix[k2]));
                        }
                    }
                }
            }
            Some(&self.objects[i])
        } else {
            proof {
                let ix = self.index@;
                let objs = self.objects@;
                assert forall|i: int| 0 <= i < objs.len() implies (#[trigger] objs[i]).spec_id()
                    != id.0 by {
                    if objs[i].spec_id() == id.0 {
                        assert(spec_index_covers(ix, i));
                        let k2 = choose|k2: int| 0 <= k2 < ix.len() && (#[trigger] ix[k2]).1 == i;
                        assert(ix[k2].0 == id.0);
                        if k2 < lo {
                            assert(ix[k2].0 < id.0);
                        } else if lo < ix.len() && k2 > lo {
                            assert(spec_pair_lt(ix[lo as int], ix[k2]));
                        }
                    }
                }
            }
            None
        }
    }

    /// Every object of the given type, in pool order.
    pub fn objects_by_type(&self, object_type: ObjectType) -> (r: Vec<&Object>)
        ensures
            forall|i: int|
                0 <= i < r@.len() ==> (#[trigger] r@[i]).spec_object_type() == object_type,
    {
        let mut found: Vec<&Object> = Vec::new();
        let mut i: usize = 0;
        while i < self.objects.len()
            invariant
                i <= self.objects@.len(),
                forall|j: int|
                    0 <= j < found@.len() ==> (#[trigger] found@[j]).spec_object_type()
                        == object_type,
            decreases self.objects@.len() - i,
        {
            if self.objects[i].object_type() == object_type {
                found.push(&self.objects[i]);
            }
            i = i + 1;
        }
        found
    }

    /// The first WorkingSet object of the pool, which declares the working
    /// set itself.
    pub fn working_set_object(&self) -> (r: Option<&WorkingSet>)
        ensures
            r matches Some(o) ==> self.spec_objects().contains(Object::WorkingSet(*o)),
    {
        let mut i: usize = 0;
        while i < self.objects.len()
            invariant
                i <= self.objects@.len(),
            decreases self.objects@.len() - i,
        {
            if let Object::WorkingSet(o) = &self.objects[i] {
                proof {
                    assert(self.spec_objects()[i as int] == Object::WorkingSet(*o));
                }
                return Some(o);
            }
            i = i + 1;
        }
        None
    }

    /// Every DataMask object, in pool order.
    pub fn data_mask_objects(&self) -> (r: Vec<&DataMask>) {
        let mut found: Vec<&DataMask> = Vec::new();
        let mut i: usize = 0;
        while i < self.objects.len()
            decreases self.objects@.len() - i,
        {
            if let Object::DataMask(o) = &self.objects[i] {
                found.push(o);
            }
            i = i + 1;
        }
        found
    }

    /// Every PictureGraphic object, in pool order.
    pub fn picture_graphic_objects(&self) -> (r: Vec<&PictureGraphic>) {
        let mut found: Vec<&PictureGraphic> = Vec::new();
        let mut i: usize = 0;
        while i < self.objects.len()
            decreases self.objects@.len() - i,
        {
            if let Object::PictureGraphic(o) = &self.objects[i] {
                found.push(o);
            }
            i = i + 1;
        }
        found
    }

    /// The DataMask holding the given id, if that id names one.
    pub fn data_mask_object_by_id(&self, id: ObjectId) -> (r: Option<&DataMask>)
        requires
            self.wf(),
        ensures
            r matches Some(o) ==> o.id.0 == id.0,
    {
        match self.object_by_id(id) {
            Some(obj) => match obj {
                Object::DataMask(o) => Some(o),
                _ => None,
            },
            None => None,
        }
    }

    /// The LineAttributes holding the given id, if that id names one.
    pub fn line_attributes_object_by_id(&self, id: ObjectId) -> (r: Option<&LineAttributes>)
        requires
            self.wf(),
        ensures
            r matches Some(o) ==> o.id.0 == id.0,
    {
        match self.object_by_id(id) {
            Some(obj) => match obj {
                Object::LineAttributes(o) => Some(o),
                _ => None,
            },
            None => None,
        }
    }

    /// The palette colour the colour map assigns to an index.
    pub fn color_by_index(&self, index: u8) -> (r: Colour)
        requires
            self.wf(),
        ensures
            r == self.spec_colour_palette()[self.spec_colour_map()[index as int] as int],
    {
        self.colour_palette[self.colour_map[index as usize] as usize]
    }
}

/// The encoded size of a pool grows by one object's size when that object
/// Appending one object extends the serialized pool by that object's bytes.
proof fn lemma_pool_bytes_push(objs: Seq<Object>, obj: Object)
    ensures
        spec_pool_bytes(objs.push(obj)) == spec_pool_bytes(objs)
            + crate::object_io::spec_object_bytes(obj),
{
    assert(objs.push(obj).drop_last() =~= objs);
    assert(objs.push(obj).last() == obj);
}

/// joins it.
proof fn lemma_pool_len_push(objs: Seq<Object>, obj: Object)
    ensures
        spec_pool_encoded_len(objs.push(obj)) == spec_pool_encoded_len(objs)
            + spec_object_encoded_len(obj),
{
    assert(objs.push(obj).drop_last() =~= objs);
    assert(objs.push(obj).last() == obj);
}

/// A pool's encoded size is never negative.
proof fn lemma_pool_len_nonneg(objs: Seq<Object>)
    ensures
        spec_pool_encoded_len(objs) >= 0,
    decreases objs.len(),
{
    if objs.len() > 0 {
        lemma_pool_len_nonneg(objs.drop_last());
        crate::object_io::lemma_encoded_len_bounds(objs.last());
    }
}

impl Default for ObjectPool {
    /// The default pool is the empty pool.
    fn default() -> (r: Self)
        ensures
            r.wf(),
            r.spec_objects().len() == 0,
    {
        ObjectPool::new()
    }
}

} // verus!
