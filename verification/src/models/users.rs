use vstd::prelude::*;
use super::ActiveValue;
use crate::text::{hex_lower, lemma_hex_lower_injective, lemma_hex_lower_len, push_char, push_hex_lower};
use vstd::arithmetic::div_mod::lemma_fundamental_div_mod;

verus! {

/// A user account; `pid` is its public UUID as a 128-bit number, `created_at` the text of its creation instant, as stored.
#[derive(Debug)]
pub struct Model {
    pub id: i32,
    pub pid: u128,
    pub email: String,
    pub first_name: String,
    pub last_name: String,
    pub phone: Option<String>,
    pub location: Option<String>,
    pub latitude: Option<String>,
    pub longitude: Option<String>,
    pub is_active: bool,
    pub is_blocked: bool,
    pub is_superuser: bool,
    pub email_verified_at: Option<String>,
    pub created_at: String,
}

/// The same row being written, column by column.
#[derive(Debug)]
pub struct ActiveModel {
    pub id: ActiveValue<i32>,
    pub pid: ActiveValue<u128>,
    pub email: ActiveValue<String>,
    pub first_name: ActiveValue<String>,
    pub last_name: ActiveValue<String>,
    pub phone: ActiveValue<Option<String>>,
    pub location: ActiveValue<Option<String>>,
    pub latitude: ActiveValue<Option<String>>,
    pub longitude: ActiveValue<Option<String>>,
    pub is_active: ActiveValue<bool>,
    pub is_blocked: ActiveValue<bool>,
    pub is_superuser: ActiveValue<bool>,
    pub email_verified_at: ActiveValue<Option<String>>,
    pub created_at: ActiveValue<String>,
}

impl ActiveModel {
    /// A row with no column set.
    pub fn new() -> (res: Self)
        ensures
            res.id is NotSet,
            res.pid is NotSet,
            res.email is NotSet,
            res.first_name is NotSet,
            res.last_name is NotSet,
            res.phone is NotSet,
            res.location is NotSet,
            res.latitude is NotSet,
            res.longitude is NotSet,
            res.is_active is NotSet,
            res.is_blocked is NotSet,
            res.is_superuser is NotSet,
            res.email_verified_at is NotSet,
            res.created_at is NotSet,
    {
        ActiveModel {
            id: ActiveValue::NotSet,
            pid: ActiveValue::NotSet,
            email: ActiveValue::NotSet,
            first_name: ActiveValue::NotSet,
            last_name: ActiveValue::NotSet,
            phone: ActiveValue::NotSet,
            location: ActiveValue::NotSet,
            latitude: ActiveValue::NotSet,
            longitude: ActiveValue::NotSet,
            is_active: ActiveValue::NotSet,
            is_blocked: ActiveValue::NotSet,
            is_superuser: ActiveValue::NotSet,
            email_verified_at: ActiveValue::NotSet,
            created_at: ActiveValue::NotSet,
        }
    }
}

impl Model {
    /// The stored row as a row to write back: every column unchanged.
    pub open spec fn unchanged(self) -> ActiveModel {
        ActiveModel {
            id: ActiveValue::Unchanged(self.id),
            pid: ActiveValue::Unchanged(self.pid),
            email: ActiveValue::Unchanged(self.email),
            first_name: ActiveValue::Unchanged(self.first_name),
            last_name: ActiveValue::Unchanged(self.last_name),
            phone: ActiveValue::Unchanged(self.phone),
            location: ActiveValue::Unchanged(self.location),
            latitude: ActiveValue::Unchanged(self.latitude),
            longitude: ActiveValue::Unchanged(self.longitude),
            is_active: ActiveValue::Unchanged(self.is_active),
            is_blocked: ActiveValue::Unchanged(self.is_blocked),
            is_superuser: ActiveValue::Unchanged(self.is_superuser),
            email_verified_at: ActiveValue::Unchanged(self.email_verified_at),
            created_at: ActiveValue::Unchanged(self.created_at),
        }
    }

    /// The stored row as a row to write back (see `unchanged`).
    pub fn into_active_model(self) -> (res: ActiveModel)
        ensures
            res == self.unchanged(),
    {
        ActiveModel {
            id: ActiveValue::Unchanged(self.id),
            pid: ActiveValue::Unchanged(self.pid),
            email: ActiveValue::Unchanged(self.email),
            first_name: ActiveValue::Unchanged(self.first_name),
            last_name: ActiveValue::Unchanged(self.last_name),
            phone: ActiveValue::Unchanged(self.phone),
            location: ActiveValue::Unchanged(self.location),
            latitude: ActiveValue::Unchanged(self.latitude),
            longitude: ActiveValue::Unchanged(self.longitude),
            is_active: ActiveValue::Unchanged(self.is_active),
            is_blocked: ActiveValue::Unchanged(self.is_blocked),
            is_superuser: ActiveValue::Unchanged(self.is_superuser),
            email_verified_at: ActiveValue::Unchanged(self.email_verified_at),
            created_at: ActiveValue::Unchanged(self.created_at),
        }
    }
}


/// The `n` bytes of `x` (taken modulo 256^n), most significant first.
pub open spec fn be_bytes(x: nat, n: nat) -> Seq<u8>
    decreases n,
{
    if n == 0 {
        Seq::empty()
    } else {
        be_bytes(x / 256, (n - 1) as nat).push((x % 256) as u8)
    }
}

/// A UUID in its hyphenated lowercase form, as `uuid::Uuid` displays it:
/// the hex of its 16 big-endian bytes grouped 4-2-2-2-6.
pub open spec fn uuid_text(pid: u128) -> Seq<char> {
    let b = be_bytes(pid as nat, 16);
    hex_lower(b.subrange(0, 4)) + seq!['-'] + hex_lower(b.subrange(4, 6)) + seq!['-']
        + hex_lower(b.subrange(6, 8)) + seq!['-'] + hex_lower(b.subrange(8, 10)) + seq!['-']
        + hex_lower(b.subrange(10, 16))
}

/// The value that `uuid::Uuid::parse_str` reads from a text, as a 128-bit
/// number, or `None` when the text is no UUID it accepts.
pub uninterp spec fn uuid_value(s: Seq<char>) -> Option<u128>;

/// `uuid::Uuid::parse_str` then `as_u128`: the public id a text names, or
/// `None` when the parse fails. What it accepts is only named.
#[verifier::external_body]
pub(crate) fn parse_uuid(s: &str) -> (res: Option<u128>)
    ensures
        res == uuid_value(s@),
{
    match uuid::Uuid::parse_str(s) {
        Ok(u) => Some(u.as_u128()),
        Err(_) => None,
    }
}

proof fn lemma_be_bytes_len(x: nat, n: nat)
    ensures
        be_bytes(x, n).len() == n,
    decreases n,
{
    if n > 0 {
        lemma_be_bytes_len(x / 256, (n - 1) as nat);
    }
}

fn push_be_bytes(v: &mut Vec<u8>, x: u128, n: u32)
    ensures
        final(v)@ == old(v)@ + be_bytes(x as nat, n as nat),
    decreases n,
{
    if n > 0 {
        push_be_bytes(v, x / 256, n - 1);
        v.push((x % 256) as u8);
        proof {
            assert(final(v)@ =~= old(v)@ + be_bytes(x as nat, n as nat));
        }
    } else {
        assert(old(v)@ + be_bytes(x as nat, 0) =~= old(v)@);
    }
}

fn slice_of(v: &Vec<u8>, from: usize, to: usize) -> (res: Vec<u8>)
    requires
        from <= to <= v@.len(),
    ensures
        res@ == v@.subrange(from as int, to as int),
{
    let mut res: Vec<u8> = Vec::new();
    let mut i = from;
    while i < to
        invariant
            from <= i <= to <= v@.len(),
            res@ == v@.subrange(from as int, i as int),
        decreases to - i,
    {
        res.push(v[i]);
        assert(res@ =~= v@.subrange(from as int, i + 1));
        i = i + 1;
    }
    res
}

/// The hyphenated text of a user's public id (see `uuid_text`).
pub fn pid_text(pid: u128) -> (res: String)
    ensures
        res@ == uuid_text(pid),
        res@.len() == 36,
{
    let mut bytes: Vec<u8> = Vec::new();
    push_be_bytes(&mut bytes, pid, 16);
    proof {
        assert(bytes@ =~= be_bytes(pid as nat, 16));
        lemma_be_bytes_len(pid as nat, 16);
    }
    let mut res = String::new();
    push_hex_lower(&mut res, slice_of(&bytes, 0, 4).as_slice());
    push_char(&mut res, '-');
    push_hex_lower(&mut res, slice_of(&bytes, 4, 6).as_slice());
    push_char(&mut res, '-');
    push_hex_lower(&mut res, slice_of(&bytes, 6, 8).as_slice());
    push_char(&mut res, '-');
    push_hex_lower(&mut res, slice_of(&bytes, 8, 10).as_slice());
    push_char(&mut res, '-');
    push_hex_lower(&mut res, slice_of(&bytes, 10, 16).as_slice());
    proof {
        let b = be_bytes(pid as nat, 16);
        crate::text::lemma_hex_lower_len(b.subrange(0, 4));
        crate::text::lemma_hex_lower_len(b.subrange(4, 6));
        crate::text::lemma_hex_lower_len(b.subrange(6, 8));
        crate::text::lemma_hex_lower_len(b.subrange(8, 10));
        crate::text::lemma_hex_lower_len(b.subrange(10, 16));
        assert(res@ =~= uuid_text(pid));
    }
    res
}


/// 256 to the power `n`.
spec fn pow256(n: nat) -> nat
    decreases n,
{
    if n == 0 {
        1
    } else {
        256 * pow256((n - 1) as nat)
    }
}

proof fn lemma_be_bytes_injective(x: nat, y: nat, n: nat)
    requires
        x < pow256(n),
        y < pow256(n),
        be_bytes(x, n) == be_bytes(y, n),
    ensures
        x == y,
    decreases n,
{
    if n > 0 {
        let bx = be_bytes(x, n);
        let by = be_bytes(y, n);
        assert(bx.last() == by.last());
        assert(bx.drop_last() =~= be_bytes(x / 256, (n - 1) as nat));
        assert(by.drop_last() =~= be_bytes(y / 256, (n - 1) as nat));
        lemma_fundamental_div_mod(x as int, 256);
        lemma_fundamental_div_mod(y as int, 256);
        lemma_be_bytes_injective(x / 256, y / 256, (n - 1) as nat);
    }
}

/// Distinct public ids have distinct texts: the text of a user's pid names
/// that user alone.
pub proof fn law_pid_text_injective(a: u128, b: u128)
    requires
        uuid_text(a) == uuid_text(b),
    ensures
        a == b,
{
    let ba = be_bytes(a as nat, 16);
    let bb = be_bytes(b as nat, 16);
    lemma_be_bytes_len(a as nat, 16);
    lemma_be_bytes_len(b as nat, 16);
    let ta = uuid_text(a);
    let tb = uuid_text(b);
    lemma_hex_lower_len(ba.subrange(0, 4));
    lemma_hex_lower_len(ba.subrange(4, 6));
    lemma_hex_lower_len(ba.subrange(6, 8));
    lemma_hex_lower_len(ba.subrange(8, 10));
    lemma_hex_lower_len(ba.subrange(10, 16));
    lemma_hex_lower_len(bb.subrange(0, 4));
    lemma_hex_lower_len(bb.subrange(4, 6));
    lemma_hex_lower_len(bb.subrange(6, 8));
    lemma_hex_lower_len(bb.subrange(8, 10));
    lemma_hex_lower_len(bb.subrange(10, 16));
    assert(ta.subrange(0, 8) =~= hex_lower(ba.subrange(0, 4)));
    assert(tb.subrange(0, 8) =~= hex_lower(bb.subrange(0, 4)));
    assert(ta.subrange(9, 13) =~= hex_lower(ba.subrange(4, 6)));
    assert(tb.subrange(9, 13) =~= hex_lower(bb.subrange(4, 6)));
    assert(ta.subrange(14, 18) =~= hex_lower(ba.subrange(6, 8)));
    assert(tb.subrange(14, 18) =~= hex_lower(bb.subrange(6, 8)));
    assert(ta.subrange(19, 23) =~= hex_lower(ba.subrange(8, 10)));
    assert(tb.subrange(19, 23) =~= hex_lower(bb.subrange(8, 10)));
    assert(ta.subrange(24, 36) =~= hex_lower(ba.subrange(10, 16)));
    assert(tb.subrange(24, 36) =~= hex_lower(bb.subrange(10, 16)));
    lemma_hex_lower_injective(ba.subrange(0, 4), bb.subrange(0, 4));
    lemma_hex_lower_injective(ba.subrange(4, 6), bb.subrange(4, 6));
    lemma_hex_lower_injective(ba.subrange(6, 8), bb.subrange(6, 8));
    lemma_hex_lower_injective(ba.subrange(8, 10), bb.subrange(8, 10));
    lemma_hex_lower_injective(ba.subrange(10, 16), bb.subrange(10, 16));
    assert(ba =~= bb) by {
        assert forall|i: int| 0 <= i < 16 implies ba[i] == bb[i] by {
            if i < 4 {
                assert(ba[i] == ba.subrange(0, 4)[i]);
                assert(bb[i] == bb.subrange(0, 4)[i]);
            } else if i < 6 {
                assert(ba[i] == ba.subrange(4, 6)[i - 4]);
                assert(bb[i] == bb.subrange(4, 6)[i - 4]);
            } else if i < 8 {
                assert(ba[i] == ba.subrange(6, 8)[i - 6]);
                assert(bb[i] == bb.subrange(6, 8)[i - 6]);
            } else if i < 10 {
                assert(ba[i] == ba.subrange(8, 10)[i - 8]);
                assert(bb[i] == bb.subrange(8, 10)[i - 8]);
            } else {
                assert(ba[i] == ba.subrange(10, 16)[i - 10]);
                assert(bb[i] == bb.subrange(10, 16)[i - 10]);
            }
        }
    }
    assert(pow256(16) == 0x1_0000_0000_0000_0000_0000_0000_0000_0000) by {
        reveal_with_fuel(pow256, 17);
    }
    lemma_be_bytes_injective(a as nat, b as nat, 16);
}

} // verus!
