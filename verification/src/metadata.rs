//! Decoding of the structured mint metadata from a loosely-typed input
//! value: name, symbol, URI, fee basis points, an optional creator list, an
//! optional collection reference, and an optional usage-limit descriptor.
//! Shape faults are reported as `DecodeError`; a malformed address nested in
//! a creator or collection is reported as `InvalidPubkey`, and no decoding
//! fault aborts the caller.

use vstd::prelude::*;
use crate::address::Address;
use crate::address::parsed_address;
use crate::errors::BridgeError;
use crate::input::InputValue;
use crate::input::bool_field;
use crate::input::bool_field_ok;
use crate::input::field_of;
use crate::input::fields_of;
use crate::input::int_field;
use crate::input::int_field_ok;
use crate::input::text_field;
use crate::input::text_field_ok;

verus! {

/// One creator entry of the metadata: an address, a verification flag, and a
/// percentage share.
pub struct CreatorRecord {
    pub address: Address,
    pub verified: bool,
    pub share: u8,
}

impl CreatorRecord {
    pub open spec fn wf(&self) -> bool {
        self.address.wf()
    }
}

/// The optional collection reference of the metadata.
pub struct CollectionRecord {
    pub verified: bool,
    pub key: Address,
}

impl CollectionRecord {
    pub open spec fn wf(&self) -> bool {
        self.key.wf()
    }
}

/// The optional usage-limit descriptor of the metadata. The method code is
/// one of three values: burn, multiple, or single use.
pub struct UsesRecord {
    pub use_method: u8,
    pub remaining: u64,
    pub total: u64,
}

impl UsesRecord {
    pub open spec fn wf(&self) -> bool {
        self.use_method < 3
    }
}

/// A fully decoded metadata record. The `primary_sale_happened` and
/// `is_mutable` flags, the absent edition nonce, the token-standard code
/// (non-fungible), and the token-program-version code (original) are fixed
/// by policy at decode time, not supplied by the caller.
pub struct MetadataRecord {
    pub name: String,
    pub symbol: String,
    pub uri: String,
    pub seller_fee_basis_points: u16,
    pub primary_sale_happened: bool,
    pub is_mutable: bool,
    pub edition_nonce: Option<u8>,
    pub token_standard: u8,
    pub token_program_version: u8,
    pub creators: Vec<CreatorRecord>,
    pub collection: Option<CollectionRecord>,
    pub uses: Option<UsesRecord>,
}

impl MetadataRecord {
    pub open spec fn wf(&self) -> bool {
        &&& text_len_ok(self.name@)
        &&& text_len_ok(self.symbol@)
        &&& text_len_ok(self.uri@)
        &&& self.creators@.len() <= 0xffffffff
        &&& self.token_standard < 4
        &&& self.token_program_version < 2
        &&& forall|i: int| 0 <= i < self.creators@.len() ==> (#[trigger] self.creators@[i]).wf()
        &&& match self.collection {
            Some(c) => c.wf(),
            None => true,
        }
        &&& match self.uses {
            Some(u) => u.wf(),
            None => true,
        }
    }
}

/// Whether a text's UTF-8 byte count, as the machine measures it, fits the
/// 32-bit length prefix with which the client's encoding writes strings.
pub open spec fn text_len_ok(s: Seq<char>) -> bool {
    (vstd::utf8::encode_utf8(s).len() as usize) <= 0xffffffff
}

/// Whether one creator entry has the required shape: a record with a text
/// address, a boolean verification flag, and a share that fits a byte.
pub open spec fn creator_shape_ok(c: InputValue) -> bool {
    &&& text_field_ok(c, "address"@)
    &&& bool_field_ok(c, "verified"@)
    &&& int_field_ok(c, "share"@)
    &&& int_field(c, "share"@) <= 255
}

/// Whether a collection reference has the required shape.
pub open spec fn collection_shape_ok(c: InputValue) -> bool {
    &&& bool_field_ok(c, "verified"@)
    &&& text_field_ok(c, "key"@)
}

/// Whether a usage-limit descriptor has the required shape, including an
/// in-range method code.
pub open spec fn uses_shape_ok(u: InputValue) -> bool {
    &&& int_field_ok(u, "use_method"@)
    &&& int_field(u, "use_method"@) <= 2
    &&& int_field_ok(u, "remaining"@)
    &&& int_field_ok(u, "total"@)
}

/// The creator entries of the metadata value: the list under `creators`, or
/// the empty sequence when the field is absent, null, or not a list.
pub open spec fn creators_list(v: InputValue) -> Seq<InputValue> {
    match field_of(fields_of(v), "creators"@) {
        Some(c) => if c is List {
            c->List_0@
        } else {
            Seq::empty()
        },
        None => Seq::empty(),
    }
}

/// Whether the whole metadata value has the required shape: the three text
/// fields, each short enough for the client's length prefix, a fee that
/// fits sixteen bits, and well-shaped optional creator, collection and uses
/// fields, the creators few enough for the length prefix. A malformed or
/// oversize shape is a `DecodeError`.
pub open spec fn metadata_shape_ok(v: InputValue) -> bool {
    &&& v is Record
    &&& text_field_ok(v, "name"@)
    &&& text_len_ok(text_field(v, "name"@))
    &&& text_field_ok(v, "symbol"@)
    &&& text_len_ok(text_field(v, "symbol"@))
    &&& text_field_ok(v, "uri"@)
    &&& text_len_ok(text_field(v, "uri"@))
    &&& creators_list(v).len() <= 0xffffffff
    &&& int_field_ok(v, "seller_fee_basis_points"@)
    &&& int_field(v, "seller_fee_basis_points"@) <= 65535
    &&& match field_of(fields_of(v), "creators"@) {
        Some(c) => c is Null || (c is List && forall|i: int|
            0 <= i < c->List_0@.len() ==> creator_shape_ok(#[trigger] c->List_0@[i])),
        None => true,
    }
    &&& match field_of(fields_of(v), "collection"@) {
        Some(c) => c is Null || collection_shape_ok(c),
        None => true,
    }
    &&& match field_of(fields_of(v), "uses"@) {
        Some(u) => u is Null || uses_shape_ok(u),
        None => true,
    }
}

/// Whether every address nested in a well-shaped metadata value parses: the
/// address of each creator, and the collection key when present. A failure
/// here is an `InvalidPubkey`, not a `DecodeError`.
pub open spec fn metadata_addresses_ok(v: InputValue) -> bool {
    &&& forall|i: int| 0 <= i < creators_list(v).len() ==> parsed_address(
        text_field(#[trigger] creators_list(v)[i], "address"@),
    ) is Some
    &&& match field_of(fields_of(v), "collection"@) {
        Some(c) => c is Null || parsed_address(text_field(c, "key"@)) is Some,
        None => true,
    }
}

/// How one decoded creator relates to its input entry.
pub open spec fn creator_decoded(c: InputValue, rec: CreatorRecord) -> bool {
    &&& rec.address@ == parsed_address(text_field(c, "address"@))->0
    &&& rec.verified == bool_field(c, "verified"@)
    &&& rec.share as u64 == int_field(c, "share"@)
}

/// How a decoded metadata record relates to its input value: every field is
/// the decoding of the matching input field, absent or null optional fields
/// decode to their empty forms, and the policy fields are fixed.
pub open spec fn metadata_decoded(v: InputValue, m: MetadataRecord) -> bool {
    &&& m.name@ == text_field(v, "name"@)
    &&& m.symbol@ == text_field(v, "symbol"@)
    &&& m.uri@ == text_field(v, "uri"@)
    &&& m.seller_fee_basis_points as u64 == int_field(v, "seller_fee_basis_points"@)
    &&& m.primary_sale_happened == false
    &&& m.is_mutable == true
    &&& m.edition_nonce is None
    &&& m.token_standard == 0
    &&& m.token_program_version == 0
    &&& m.creators@.len() == creators_list(v).len()
    &&& forall|i: int| 0 <= i < creators_list(v).len() ==> creator_decoded(
        creators_list(v)[i],
        #[trigger] m.creators@[i],
    )
    &&& match field_of(fields_of(v), "collection"@) {
        Some(c) => if c is Null {
            m.collection is None
        } else {
            m.collection matches Some(cr) && cr.verified == bool_field(c, "verified"@)
                && cr.key@ == parsed_address(text_field(c, "key"@))->0
        },
        None => m.collection is None,
    }
    &&& match field_of(fields_of(v), "uses"@) {
        Some(u) => if u is Null {
            m.uses is None
        } else {
            m.uses matches Some(ur) && ur.use_method as u64 == int_field(u, "use_method"@)
                && ur.remaining == int_field(u, "remaining"@) && ur.total == int_field(
                u,
                "total"@,
            )
        },
        None => m.uses is None,
    }
}

/// Whether one creator entry has the required shape, decided at run time.
fn check_creator_shape(c: &InputValue) -> (r: bool)
    ensures
        r == creator_shape_ok(*c),
{
    let address_ok = c.text_value("address").is_some();
    let verified_ok = c.bool_value("verified").is_some();
    let share_ok = match c.int_value("share") {
        Some(n) => n <= 255,
        None => false,
    };
    address_ok && verified_ok && share_ok
}

/// Whether the whole metadata value has the required shape, decided at run
/// time.
fn check_metadata_shape(v: &InputValue) -> (r: bool)
    ensures
        r == metadata_shape_ok(*v),
{
    match v {
        InputValue::Record(_) => {},
        _ => {
            return false;
        },
    }
    match v.text_value("name") {
        Some(t) => {
            if t.as_str().len() > 0xffffffff {
                return false;
            }
        },
        None => {
            return false;
        },
    }
    match v.text_value("symbol") {
        Some(t) => {
            if t.as_str().len() > 0xffffffff {
                return false;
            }
        },
        None => {
            return false;
        },
    }
    match v.text_value("uri") {
        Some(t) => {
            if t.as_str().len() > 0xffffffff {
                return false;
            }
        },
        None => {
            return false;
        },
    }
    match v.int_value("seller_fee_basis_points") {
        Some(n) => {
            if n > 65535 {
                return false;
            }
        },
        None => {
            return false;
        },
    }
    match v.field(&("creators".to_owned())) {
        None => {},
        Some(InputValue::Null) => {},
        Some(InputValue::List(items)) => {
            let n = items.len();
            if n > 0xffffffff {
                return false;
            }
            let mut i: usize = 0;
            while i < n
                invariant
                    i <= n,
                    n == items@.len(),
                    v is Record,
                    field_of(fields_of(*v), "creators"@) == Some(InputValue::List(*items)),
                    forall|j: int| 0 <= j < i ==> creator_shape_ok(#[trigger] items@[j]),
                decreases n - i,
            {
                if !check_creator_shape(&items[i]) {
                    proof {
                        let cval = field_of(fields_of(*v), "creators"@)->0;
                        assert(cval->List_0@ == items@);
                        assert(!creator_shape_ok(cval->List_0@[i as int]));
                    }
                    return false;
                }
                i = i + 1;
            }
        },
        Some(_) => {
            return false;
        },
    }
    match v.field(&("collection".to_owned())) {
        None => {},
        Some(InputValue::Null) => {},
        Some(c) => {
            if c.bool_value("verified").is_none() {
                return false;
            }
            if c.text_value("key").is_none() {
                return false;
            }
        },
    }
    match v.field(&("uses".to_owned())) {
        None => {},
        Some(InputValue::Null) => {},
        Some(u) => {
            match u.int_value("use_method") {
                Some(n) => {
                    if n > 2 {
                        return false;
                    }
                },
                None => {
                    return false;
                },
            }
            if u.int_value("remaining").is_none() {
                return false;
            }
            if u.int_value("total").is_none() {
                return false;
            }
        },
    }
    true
}

/// Decode one well-shaped creator entry; fails with `InvalidPubkey` exactly
/// when its address text does not parse.
fn decode_creator(c: &InputValue) -> (r: Result<CreatorRecord, BridgeError>)
    requires
        creator_shape_ok(*c),
    ensures
        r is Ok <==> parsed_address(text_field(*c, "address"@)) is Some,
        r matches Ok(rec) ==> creator_decoded(*c, rec) && rec.wf(),
        r matches Err(e) ==> e == BridgeError::InvalidPubkey,
{
    let address_text = c.text_value("address").unwrap();
    let address = match Address::parse(address_text.as_str()) {
        Ok(a) => a,
        Err(_) => {
            return Err(BridgeError::InvalidPubkey);
        },
    };
    let verified = c.bool_value("verified").unwrap();
    let share = c.int_value("share").unwrap();
    Ok(CreatorRecord { address, verified, share: share as u8 })
}

/// Decode the structured metadata of a mint call from a loosely-typed input
/// value. Fails with `DecodeError` exactly when the value is malformed, and
/// with `InvalidPubkey` exactly when the value is well-formed but an address
/// nested in a creator or the collection does not parse; no fault aborts the
/// caller, and nothing beyond decoding takes place on a rejected input.
pub fn decode_metadata(v: &InputValue) -> (r: Result<MetadataRecord, BridgeError>)
    ensures
        r is Ok <==> metadata_shape_ok(*v) && metadata_addresses_ok(*v),
        r matches Ok(m) ==> metadata_decoded(*v, m) && m.wf(),
        !metadata_shape_ok(*v) ==> r == Err::<MetadataRecord, BridgeError>(
            BridgeError::DecodeError,
        ),
        metadata_shape_ok(*v) && !metadata_addresses_ok(*v) ==> r == Err::<
            MetadataRecord,
            BridgeError,
        >(BridgeError::InvalidPubkey),
{
    if !check_metadata_shape(v) {
        return Err(BridgeError::DecodeError);
    }
    let name = v.text_value("name").unwrap().clone();
    let symbol = v.text_value("symbol").unwrap().clone();
    let uri = v.text_value("uri").unwrap().clone();
    let fee = v.int_value("seller_fee_basis_points").unwrap();
    let mut creators: Vec<CreatorRecord> = Vec::new();
    match v.field(&("creators".to_owned())) {
        Some(InputValue::List(items)) => {
            let n = items.len();
            let mut i: usize = 0;
            while i < n
                invariant
                    i <= n,
                    n == items@.len(),
                    metadata_shape_ok(*v),
                    field_of(fields_of(*v), "creators"@) == Some(InputValue::List(*items)),
                    creators_list(*v) == items@,
                    creators@.len() == i,
                    forall|j: int| 0 <= j < i ==> creator_decoded(
                        items@[j],
                        #[trigger] creators@[j],
                    ) && creators@[j].wf(),
                    forall|j: int| 0 <= j < i ==> parsed_address(
                        text_field(#[trigger] items@[j], "address"@),
                    ) is Some,
                decreases n - i,
            {
                let rec = match decode_creator(&items[i]) {
                    Ok(rec) => rec,
                    Err(_) => {
                        return Err(BridgeError::InvalidPubkey);
                    },
                };
                creators.push(rec);
                i = i + 1;
            }
        },
        _ => {},
    }
    let collection: Option<CollectionRecord> = match v.field(&("collection".to_owned())) {
        None => None,
        Some(InputValue::Null) => None,
        Some(c) => {
            let verified = c.bool_value("verified").unwrap();
            let key_text = c.text_value("key").unwrap();
            let key = match Address::parse(key_text.as_str()) {
                Ok(a) => a,
                Err(_) => {
                    return Err(BridgeError::InvalidPubkey);
                },
            };
            Some(CollectionRecord { verified, key })
        },
    };
    let uses: Option<UsesRecord> = match v.field(&("uses".to_owned())) {
        None => None,
        Some(InputValue::Null) => None,
        Some(u) => {
            let use_method = u.int_value("use_method").unwrap();
            let remaining = u.int_value("remaining").unwrap();
            let total = u.int_value("total").unwrap();
            Some(UsesRecord { use_method: use_method as u8, remaining, total })
        },
    };
    Ok(
        MetadataRecord {
            name,
            symbol,
            uri,
            seller_fee_basis_points: fee as u16,
            primary_sale_happened: false,
            is_mutable: true,
            edition_nonce: None,
            token_standard: 0,
            token_program_version: 0,
            creators,
            collection,
            uses,
        },
    )
}

} // verus!
