//! The typed property model: decoding kernel property descriptors into
//! tagged values, and batching updates for one atomic commit.
//!
//! A descriptor's flags decide its type, mutually exclusively and in the
//! kernel's documented precedence: enum (or bitmask) before blob before
//! unsigned range before signed range before object reference; a
//! descriptor matching none of these is an error, not silently dropped.
//! The surrounding program performs the per-type follow-up queries and
//! hands their plain results to the decoders below.

use vstd::prelude::*;
use crate::error::Error;
use crate::names::{name_before_nul, read_name};
use crate::resource::ObjectKind;

verus! {

// Property flag bits of the device ABI.
pub const PROP_FLAG_PENDING: u32 = 1;

pub const PROP_FLAG_RANGE: u32 = 2;

pub const PROP_FLAG_IMMUTABLE: u32 = 4;

pub const PROP_FLAG_ENUM: u32 = 8;

pub const PROP_FLAG_BLOB: u32 = 16;

pub const PROP_FLAG_BITMASK: u32 = 32;

// Extended property type codes, stored in the flag word above the bits.
pub const PROP_FLAG_OBJECT: u32 = 64;

pub const PROP_FLAG_SIGNED_RANGE: u32 = 128;

/// The flag the atomic commit call carries to allow a full mode change.
pub const ATOMIC_ALLOW_MODESET: u32 = 0x0400;

/// Whether the immutable bit is clear.
pub open spec fn spec_mutable(flags: u32) -> bool {
    flags & PROP_FLAG_IMMUTABLE == 0
}

/// Whether the pending bit is set.
pub open spec fn spec_pending(flags: u32) -> bool {
    flags & PROP_FLAG_PENDING == 1
}

/// Whether the descriptor is an enum or a bitmask.
pub open spec fn spec_is_enum(flags: u32) -> bool {
    flags & (PROP_FLAG_ENUM | PROP_FLAG_BITMASK) != 0
}

/// Whether the descriptor is a blob reference.
pub open spec fn spec_blob(flags: u32) -> bool {
    flags & PROP_FLAG_BLOB != 0
}

/// Whether the descriptor is an unsigned range.
pub open spec fn spec_urange(flags: u32) -> bool {
    flags & PROP_FLAG_RANGE != 0
}

/// Whether the descriptor is a signed range.
pub open spec fn spec_irange(flags: u32) -> bool {
    flags & PROP_FLAG_SIGNED_RANGE != 0
}

/// Whether the descriptor is an object reference.
pub open spec fn spec_object(flags: u32) -> bool {
    flags & PROP_FLAG_OBJECT != 0
}

/// A property descriptor as the kernel reports it: the raw name buffer,
/// the flag word, and the lengths of the two variable arrays a follow-up
/// query may have to fetch.
#[derive(Debug, PartialEq, Eq)]
pub struct drm_mode_get_property {
    pub prop_id: u32,
    pub flags: u32,
    pub name: Vec<u8>,
    pub count_values: u32,
    pub count_enum_blobs: u32,
}

impl drm_mode_get_property {
    /// Whether the property may be written: the immutable flag is clear.
    pub fn mutable(&self) -> (r: bool)
        ensures
            r == spec_mutable(self.flags),
    {
        self.flags & PROP_FLAG_IMMUTABLE == 0
    }

    /// Whether the property's pending flag is set.
    pub fn pending(&self) -> (r: bool)
        ensures
            r == spec_pending(self.flags),
    {
        self.flags & PROP_FLAG_PENDING == 1
    }

    /// Whether the descriptor carries an enum or bitmask property.
    pub fn is_enum(&self) -> (r: bool)
        ensures
            r == spec_is_enum(self.flags),
    {
        self.flags & (PROP_FLAG_ENUM | PROP_FLAG_BITMASK) != 0
    }

    /// Whether the descriptor carries a blob property.
    pub fn blob(&self) -> (r: bool)
        ensures
            r == spec_blob(self.flags),
    {
        self.flags & PROP_FLAG_BLOB != 0
    }

    /// Whether the descriptor carries an unsigned-range property.
    pub fn urange(&self) -> (r: bool)
        ensures
            r == spec_urange(self.flags),
    {
        self.flags & PROP_FLAG_RANGE != 0
    }

    /// Whether the descriptor carries a signed-range property.
    pub fn irange(&self) -> (r: bool)
        ensures
            r == spec_irange(self.flags),
    {
        self.flags & PROP_FLAG_SIGNED_RANGE != 0
    }

    /// Whether the descriptor carries an object-reference property.
    pub fn object(&self) -> (r: bool)
        ensures
            r == spec_object(self.flags),
    {
        self.flags & PROP_FLAG_OBJECT != 0
    }

    /// Decides the descriptor's type, or the error for an unrecognized
    /// flag combination.
    pub fn classify(&self) -> (r: Result<PropertyClass, Error>)
        ensures
            r == spec_classify(self.flags),
    {
        if self.is_enum() {
            Ok(PropertyClass::Enum)
        } else if self.blob() {
            Ok(PropertyClass::Blob)
        } else if self.urange() {
            Ok(PropertyClass::URange)
        } else if self.irange() {
            Ok(PropertyClass::IRange)
        } else if self.object() {
            Ok(PropertyClass::Object)
        } else {
            Err(Error::UnknownPropertyType(self.flags))
        }
    }
}

/// The five property types the decoder recognizes.
#[derive(Debug, Clone, Copy, PartialEq, Eq, Structural)]
pub enum PropertyClass {
    Enum,
    Blob,
    URange,
    IRange,
    Object,
}

/// The type a flag word decodes to, first match winning in the order
/// enum, blob, unsigned range, signed range, object reference; none of
/// them is the unknown-property-type error.
pub open spec fn spec_classify(flags: u32) -> Result<PropertyClass, Error> {
    if spec_is_enum(flags) {
        Ok(PropertyClass::Enum)
    } else if spec_blob(flags) {
        Ok(PropertyClass::Blob)
    } else if spec_urange(flags) {
        Ok(PropertyClass::URange)
    } else if spec_irange(flags) {
        Ok(PropertyClass::IRange)
    } else if spec_object(flags) {
        Ok(PropertyClass::Object)
    } else {
        Err(Error::UnknownPropertyType(flags))
    }
}

/// Law: the decode tie-break. Whatever other type flags a descriptor
/// sets, the enum flag wins; without it the blob flag wins; and so on
/// down the documented precedence, and a descriptor setting none of the
/// five is reported as an unknown property type, never dropped.
pub proof fn lemma_classify_priority(flags: u32)
    ensures
        spec_is_enum(flags) ==> spec_classify(flags) == Ok::<PropertyClass, Error>(
            PropertyClass::Enum,
        ),
        !spec_is_enum(flags) && spec_blob(flags) ==> spec_classify(flags) == Ok::<
            PropertyClass,
            Error,
        >(PropertyClass::Blob),
        !spec_is_enum(flags) && !spec_blob(flags) && spec_urange(flags) ==> spec_classify(flags)
            == Ok::<PropertyClass, Error>(PropertyClass::URange),
        !spec_is_enum(flags) && !spec_blob(flags) && !spec_urange(flags) && spec_irange(flags)
            ==> spec_classify(flags) == Ok::<PropertyClass, Error>(PropertyClass::IRange),
        !spec_is_enum(flags) && !spec_blob(flags) && !spec_urange(flags) && !spec_irange(flags)
            && spec_object(flags) ==> spec_classify(flags) == Ok::<PropertyClass, Error>(
            PropertyClass::Object,
        ),
        !spec_is_enum(flags) && !spec_blob(flags) && !spec_urange(flags) && !spec_irange(flags)
            && !spec_object(flags) ==> spec_classify(flags) == Err::<PropertyClass, Error>(
            Error::UnknownPropertyType(flags),
        ),
{
}

/// One admissible value of an enum property, with its name.
#[derive(Debug, PartialEq, Eq)]
pub struct EnumEntry {
    pub value: i64,
    pub name: Vec<u8>,
}

/// The tagged value of a decoded property.
#[derive(Debug, PartialEq, Eq)]
pub enum PropertyValue {
    /// A value out of a named set; `possible` lists the admissible values.
    Enum { current: i64, possible: Vec<EnumEntry> },
    /// An unsigned value within inclusive bounds.
    URange { current: u64, min: u64, max: u64 },
    /// A signed value within inclusive bounds.
    IRange { current: i64, min: i64, max: i64 },
    /// A reference to another resource of the given kind.
    Object { current: u32, allowed: ObjectKind },
    /// An opaque blob, fetched by its id.
    Blob { id: u32, bytes: Vec<u8> },
}

/// A decoded property: its identity, the resource it was read from, its
/// name and mutability, and its typed value.
#[derive(Debug, PartialEq, Eq)]
pub struct Property {
    pub id: u32,
    pub parent: u32,
    pub parent_kind: ObjectKind,
    pub name: Vec<u8>,
    pub mutable: bool,
    pub pending: bool,
    pub value: PropertyValue,
}

impl Property {
    /// A new-value request for this property on its owning resource; the
    /// update can be built without re-querying the kernel.
    pub fn update(&self, value: i64) -> (u: PropertyUpdate)
        ensures
            u.resource == self.parent,
            u.property == self.id,
            u.value == value,
    {
        PropertyUpdate { resource: self.parent, property: self.id, value }
    }
}

/// The common header fields every decoder copies out of the descriptor.
pub open spec fn decoded_header(
    p: Property,
    desc: drm_mode_get_property,
    parent: u32,
    kind: ObjectKind,
) -> bool {
    &&& p.id == desc.prop_id
    &&& p.parent == parent
    &&& p.parent_kind == kind
    &&& p.name@ == name_before_nul(desc.name@)
    &&& p.mutable == spec_mutable(desc.flags)
    &&& p.pending == spec_pending(desc.flags)
}

/// Decodes an enum (or bitmask) property: the current value together with
/// the admissible values the follow-up query reported. The kernel hands
/// each admissible value's name in a fixed, NUL-padded buffer; the entry
/// keeps the bytes before the first NUL, like the property's own name.
pub fn decode_enum(
    desc: &drm_mode_get_property,
    parent: u32,
    parent_kind: ObjectKind,
    current: i64,
    entries: &Vec<EnumEntry>,
) -> (p: Property)
    ensures
        decoded_header(p, *desc, parent, parent_kind),
        p.value matches PropertyValue::Enum { current: c, possible } && c == current
            && possible@.len() == entries@.len() && (forall|i: int|
            0 <= i < entries@.len() ==> (#[trigger] possible@[i]).value == entries@[i].value
                && possible@[i].name@ == name_before_nul(entries@[i].name@)),
{
    let mut possible: Vec<EnumEntry> = Vec::new();
    let mut i: usize = 0;
    while i < entries.len()
        invariant
            i <= entries@.len(),
            possible@.len() == i,
            forall|k: int|
                0 <= k < i ==> (#[trigger] possible@[k]).value == entries@[k].value
                    && possible@[k].name@ == name_before_nul(entries@[k].name@),
        decreases entries@.len() - i,
    {
        let e = &entries[i];
        possible.push(EnumEntry { value: e.value, name: read_name(&e.name) });
        i = i + 1;
    }
    Property {
        id: desc.prop_id,
        parent,
        parent_kind,
        name: read_name(&desc.name),
        mutable: desc.mutable(),
        pending: desc.pending(),
        value: PropertyValue::Enum { current, possible },
    }
}

/// Decodes an unsigned-range property. The first two entries of the
/// values array are the bounds; a missing lower bound defaults to zero, a
/// missing upper bound to the largest representable value, rather than
/// failing.
pub fn decode_urange(
    desc: &drm_mode_get_property,
    parent: u32,
    parent_kind: ObjectKind,
    current: u64,
    values: &Vec<u64>,
) -> (p: Property)
    ensures
        decoded_header(p, *desc, parent, parent_kind),
        p.value matches PropertyValue::URange { current: c, min, max } && c == current && min == (
        if values@.len() >= 1 {
            values@[0]
        } else {
            0
        }) && max == (if values@.len() >= 2 {
            values@[1]
        } else {
            u64::MAX
        }),
{
    let min = if values.len() >= 1 {
        values[0]
    } else {
        0
    };
    let max = if values.len() >= 2 {
        values[1]
    } else {
        u64::MAX
    };
    Property {
        id: desc.prop_id,
        parent,
        parent_kind,
        name: read_name(&desc.name),
        mutable: desc.mutable(),
        pending: desc.pending(),
        value: PropertyValue::URange { current, min, max },
    }
}

/// Decodes a signed-range property. The first two entries of the values
/// array are the bounds; missing bounds default to the smallest and
/// largest representable values.
pub fn decode_irange(
    desc: &drm_mode_get_property,
    parent: u32,
    parent_kind: ObjectKind,
    current: i64,
    values: &Vec<i64>,
) -> (p: Property)
    ensures
        decoded_header(p, *desc, parent, parent_kind),
        p.value matches PropertyValue::IRange { current: c, min, max } && c == current && min == (
        if values@.len() >= 1 {
            values@[0]
        } else {
            i64::MIN
        }) && max == (if values@.len() >= 2 {
            values@[1]
        } else {
            i64::MAX
        }),
{
    let min = if values.len() >= 1 {
        values[0]
    } else {
        i64::MIN
    };
    let max = if values.len() >= 2 {
        values[1]
    } else {
        i64::MAX
    };
    Property {
        id: desc.prop_id,
        parent,
        parent_kind,
        name: read_name(&desc.name),
        mutable: desc.mutable(),
        pending: desc.pending(),
        value: PropertyValue::IRange { current, min, max },
    }
}

/// Decodes an object-reference property: the current value is the
/// referenced resource id, and the first entry of the values array names
/// the kind of object the reference may point at.
pub fn decode_object(
    desc: &drm_mode_get_property,
    parent: u32,
    parent_kind: ObjectKind,
    current: u64,
    values: &Vec<u32>,
) -> (p: Property)
    requires
        current <= u32::MAX,
    ensures
        decoded_header(p, *desc, parent, parent_kind),
        p.value matches PropertyValue::Object { current: c, allowed } && c == current
            && allowed == ObjectKind::spec_from_raw(
            if values@.len() >= 1 {
                values@[0]
            } else {
                0
            },
        ),
{
    let raw_kind = if values.len() >= 1 {
        values[0]
    } else {
        0
    };
    Property {
        id: desc.prop_id,
        parent,
        parent_kind,
        name: read_name(&desc.name),
        mutable: desc.mutable(),
        pending: desc.pending(),
        value: PropertyValue::Object { current: current as u32, allowed: ObjectKind::from_raw(raw_kind) },
    }
}

/// Decodes a blob property: the blob id together with the raw bytes the
/// blob fetch returned.
pub fn decode_blob(
    desc: &drm_mode_get_property,
    parent: u32,
    parent_kind: ObjectKind,
    blob_id: u64,
    bytes: Vec<u8>,
) -> (p: Property)
    requires
        blob_id <= u32::MAX,
    ensures
        decoded_header(p, *desc, parent, parent_kind),
        p.value matches PropertyValue::Blob { id, bytes: b } && id == blob_id && b@ == bytes@,
{
    Property {
        id: desc.prop_id,
        parent,
        parent_kind,
        name: read_name(&desc.name),
        mutable: desc.mutable(),
        pending: desc.pending(),
        value: PropertyValue::Blob { id: blob_id as u32, bytes },
    }
}

/// The decoded properties of the results that succeeded, in order.
pub open spec fn spec_ok_properties(s: Seq<Result<Property, Error>>) -> Seq<Property>
    decreases s.len(),
{
    if s.len() == 0 {
        Seq::empty()
    } else {
        let rest = spec_ok_properties(s.drop_first());
        match s.first() {
            Ok(p) => Seq::empty().push(p) + rest,
            Err(_) => rest,
        }
    }
}

/// Appending one result appends its property, or nothing for an error.
proof fn lemma_ok_properties_snoc(s: Seq<Result<Property, Error>>, x: Result<Property, Error>)
    ensures
        spec_ok_properties(s.push(x)) == (match x {
            Ok(p) => spec_ok_properties(s).push(p),
            Err(_) => spec_ok_properties(s),
        }),
    decreases s.len(),
{
    let t = s.push(x);
    if s.len() == 0 {
        assert(t.first() == x);
        assert(t.drop_first() =~= Seq::<Result<Property, Error>>::empty());
        assert(spec_ok_properties(Seq::<Result<Property, Error>>::empty())
            == Seq::<Property>::empty());
        assert(spec_ok_properties(s) == Seq::<Property>::empty());
        match x {
            Ok(p) => {
                assert(spec_ok_properties(t) == Seq::<Property>::empty().push(p)
                    + Seq::<Property>::empty());
                assert(Seq::<Property>::empty().push(p) + Seq::<Property>::empty()
                    =~= Seq::<Property>::empty().push(p));
            },
            Err(_) => {},
        }
    } else {
        assert(t.first() == s.first());
        assert(t.drop_first() =~= s.drop_first().push(x));
        lemma_ok_properties_snoc(s.drop_first(), x);
        let rest = spec_ok_properties(s.drop_first());
        match s.first() {
            Ok(q) => {
                assert(spec_ok_properties(s) == Seq::<Property>::empty().push(q) + rest);
                match x {
                    Ok(p) => {
                        assert(spec_ok_properties(t) == Seq::<Property>::empty().push(q)
                            + rest.push(p));
                        assert(Seq::<Property>::empty().push(q) + rest.push(p) =~= (
                        Seq::<Property>::empty().push(q) + rest).push(p));
                    },
                    Err(_) => {
                        assert(spec_ok_properties(t) == Seq::<Property>::empty().push(q) + rest);
                    },
                }
            },
            Err(_) => {
                assert(spec_ok_properties(s) == rest);
            },
        }
    }
}

/// The error kinds of the results that failed, in order.
pub open spec fn spec_undecodable(s: Seq<Result<Property, Error>>) -> Seq<Error>
    decreases s.len(),
{
    if s.len() == 0 {
        Seq::empty()
    } else {
        let rest = spec_undecodable(s.drop_first());
        match s.first() {
            Ok(_) => rest,
            Err(e) => Seq::empty().push(e) + rest,
        }
    }
}

/// Appending one result appends its error kind, or nothing for a success.
proof fn lemma_undecodable_snoc(s: Seq<Result<Property, Error>>, x: Result<Property, Error>)
    ensures
        spec_undecodable(s.push(x)) == (match x {
            Ok(_) => spec_undecodable(s),
            Err(e) => spec_undecodable(s).push(e),
        }),
    decreases s.len(),
{
    let t = s.push(x);
    if s.len() == 0 {
        assert(t.first() == x);
        assert(t.drop_first() =~= Seq::<Result<Property, Error>>::empty());
        assert(spec_undecodable(Seq::<Result<Property, Error>>::empty())
            == Seq::<Error>::empty());
        assert(spec_undecodable(s) == Seq::<Error>::empty());
        match x {
            Ok(_) => {},
            Err(e) => {
                assert(spec_undecodable(t) == Seq::<Error>::empty().push(e)
                    + Seq::<Error>::empty());
                assert(Seq::<Error>::empty().push(e) + Seq::<Error>::empty()
                    =~= Seq::<Error>::empty().push(e));
            },
        }
    } else {
        assert(t.first() == s.first());
        assert(t.drop_first() =~= s.drop_first().push(x));
        lemma_undecodable_snoc(s.drop_first(), x);
        let rest = spec_undecodable(s.drop_first());
        match s.first() {
            Ok(_) => {
                assert(spec_undecodable(s) == rest);
            },
            Err(q) => {
                assert(spec_undecodable(s) == Seq::<Error>::empty().push(q) + rest);
                match x {
                    Ok(_) => {
                        assert(spec_undecodable(t) == Seq::<Error>::empty().push(q) + rest);
                    },
                    Err(e) => {
                        assert(spec_undecodable(t) == Seq::<Error>::empty().push(q) + rest.push(
                            e,
                        ));
                        assert(Seq::<Error>::empty().push(q) + rest.push(e) =~= (
                        Seq::<Error>::empty().push(q) + rest).push(e));
                    },
                }
            },
        }
    }
}

/// One resource's property listing: the properties that decoded, and the
/// error kind of each one that did not, in their reported order.
#[derive(Debug, PartialEq, Eq)]
pub struct PropertyListing {
    pub properties: Vec<Property>,
    pub undecodable: Vec<Error>,
}

/// Collects one resource's per-property decode results. A property that
/// failed to decode is not fatal — the kernel may know types this session
/// does not — but it is not dropped either: its error kind is surfaced in
/// the listing's `undecodable` list. A permission failure aborts the
/// whole listing, since every further read would fail the same way.
pub fn collect_properties(results: Vec<Result<Property, Error>>) -> (r: Result<
    PropertyListing,
    Error,
>)
    ensures
        r is Ok <==> (forall|i: int|
            0 <= i < results@.len() ==> results@[i] != Err::<Property, Error>(
                Error::PermissionDenied,
            )),
        r matches Ok(l) ==> l.properties@ == spec_ok_properties(results@) && l.undecodable@
            == spec_undecodable(results@),
        r is Err ==> r == Err::<PropertyListing, Error>(Error::PermissionDenied),
{
    let ghost all = results@;
    let mut rest = results;
    let mut out: Vec<Property> = Vec::new();
    let mut undecodable: Vec<Error> = Vec::new();
    let ghost mut done: int = 0;
    while rest.len() > 0
        invariant
            all == results@,
            0 <= done <= all.len(),
            rest@ =~= all.skip(done),
            out@ == spec_ok_properties(all.take(done)),
            undecodable@ == spec_undecodable(all.take(done)),
            forall|i: int|
                0 <= i < done ==> all[i] != Err::<Property, Error>(Error::PermissionDenied),
        decreases rest@.len(),
    {
        let item = rest.remove(0);
        proof {
            assert(item == all[done]);
            assert(rest@ =~= all.skip(done + 1));
            assert(all.take(done + 1) =~= all.take(done).push(all[done]));
            lemma_ok_properties_snoc(all.take(done), all[done]);
            lemma_undecodable_snoc(all.take(done), all[done]);
        }
        match item {
            Ok(p) => {
                out.push(p);
            },
            Err(e) => {
                if e == Error::PermissionDenied {
                    proof {
                        assert(all[done] == Err::<Property, Error>(Error::PermissionDenied));
                        assert(0 <= done < results@.len());
                        assert(!(forall|i: int|
                            0 <= i < results@.len() ==> results@[i] != Err::<Property, Error>(
                                Error::PermissionDenied,
                            ))) by {
                            assert(results@[done] == Err::<Property, Error>(
                                Error::PermissionDenied,
                            ));
                        }
                    }
                    return Err(Error::PermissionDenied);
                }
                undecodable.push(e);
            },
        }
        proof {
            done = done + 1;
        }
    }
    proof {
        assert(all.take(all.len() as int) =~= all);
    }
    Ok(PropertyListing { properties: out, undecodable })
}

/// One pending change: set `property` on `resource` to `value`.
#[derive(Debug, Clone, Copy, PartialEq, Eq, Structural)]
pub struct PropertyUpdate {
    pub resource: u32,
    pub property: u32,
    pub value: i64,
}

/// The packed form of one atomic commit: three parallel arrays, object
/// ids, property ids and values, and the commit flags.
#[derive(Debug, PartialEq, Eq)]
pub struct AtomicRequest {
    pub objects: Vec<u32>,
    pub props: Vec<u32>,
    pub values: Vec<u64>,
    pub flags: u32,
}

/// Packs a batch of updates into the three parallel arrays of one atomic
/// commit call, with the allow-full-mode-change flag set. Entry `i` of
/// each array comes from update `i`; the value is carried in the call's
/// unsigned word with the signed value's bit pattern.
pub fn pack_commit(updates: &Vec<PropertyUpdate>) -> (r: AtomicRequest)
    ensures
        r.flags == ATOMIC_ALLOW_MODESET,
        r.objects@.len() == updates@.len(),
        r.props@.len() == updates@.len(),
        r.values@.len() == updates@.len(),
        forall|i: int|
            0 <= i < updates@.len() ==> {
                &&& r.objects@[i] == updates@[i].resource
                &&& r.props@[i] == updates@[i].property
                &&& r.values@[i] == updates@[i].value as u64
            },
{
    let mut objects: Vec<u32> = Vec::new();
    let mut props: Vec<u32> = Vec::new();
    let mut values: Vec<u64> = Vec::new();
    let mut i: usize = 0;
    while i < updates.len()
        invariant
            i <= updates@.len(),
            objects@.len() == i,
            props@.len() == i,
            values@.len() == i,
            forall|k: int|
                0 <= k < i ==> {
                    &&& objects@[k] == updates@[k].resource
                    &&& props@[k] == updates@[k].property
                    &&& values@[k] == updates@[k].value as u64
                },
        decreases updates@.len() - i,
    {
        let u = updates[i];
        objects.push(u.resource);
        props.push(u.property);
        values.push(#[verifier::truncate] (u.value as u64));
        i = i + 1;
    }
    AtomicRequest { objects, props, values, flags: ATOMIC_ALLOW_MODESET }
}

} // verus!
