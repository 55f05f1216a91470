//! The accounts that the program owns and their byte layouts.

use vstd::prelude::*;

use crate::error::ProgramError;
use crate::le::{
    decode_i64, decode_u64, encode_i64, encode_u64, i64_from_le_bytes, i64_to_le_bytes,
    lemma_decode_encode_i64, lemma_decode_encode_u64, lemma_encode_decode_i64,
    lemma_encode_decode_u64, u64_from_le_bytes, u64_to_le_bytes,
};

verus! {

broadcast use vstd::array::group_array_axioms;

/// The fundraiser account: who opened it, for which mint, the target, how much
/// has been recorded so far, when it started, how many days it runs, and the
/// bump of its address. Every field is a byte array or a byte, so the account
/// data is exactly the fields one after the other.
#[derive(Clone, Copy, Debug, PartialEq, Eq)]
pub struct Fundraiser {
    pub maker: [u8; 32],
    pub mint_to_raise: [u8; 32],
    pub amount_to_raise: [u8; 8],
    pub current_amount: [u8; 8],
    pub time_started: [u8; 8],
    pub duration: u8,
    pub bump: u8,
}

/// What a fundraiser account records, with the integers decoded.
pub struct FundraiserModel {
    pub maker: Seq<u8>,
    pub mint_to_raise: Seq<u8>,
    pub amount_to_raise: u64,
    pub current_amount: u64,
    pub time_started: i64,
    pub duration: u8,
    pub bump: u8,
}

impl View for Fundraiser {
    type V = FundraiserModel;

    open spec fn view(&self) -> FundraiserModel {
        FundraiserModel {
            maker: self.maker@,
            mint_to_raise: self.mint_to_raise@,
            amount_to_raise: decode_u64(self.amount_to_raise@) as u64,
            current_amount: decode_u64(self.current_amount@) as u64,
            time_started: decode_i64(self.time_started@) as i64,
            duration: self.duration,
            bump: self.bump,
        }
    }
}

/// Copies `N` bytes of `data` from `start` on.
fn copy_bytes<const N: usize>(data: &[u8], start: usize) -> (r: [u8; N])
    requires
        start + N <= data@.len(),
    ensures
        r@ == data@.subrange(start as int, start + N),
{
    let mut r = [0u8; N];
    let mut i: usize = 0;
    while i < N
        invariant
            i <= N,
            start + N <= data.len(),
            r@.len() == N,
            forall|k: int| 0 <= k < i ==> r@[k] == data@[start + k],
        decreases N - i,
    {
        r[i] = data[start + i];
        i = i + 1;
    }
    assert(r@ =~= data@.subrange(start as int, start + N));
    r
}

/// Appends the bytes of `src` to `out`.
fn push_bytes(out: &mut Vec<u8>, src: &[u8])
    ensures
        final(out)@ == old(out)@ + src@,
{
    let mut i: usize = 0;
    while i < src.len()
        invariant
            i <= src@.len(),
            out@ == old(out)@ + src@.subrange(0, i as int),
        decreases src@.len() - i,
    {
        out.push(src[i]);
        i = i + 1;
        assert(out@ =~= old(out)@ + src@.subrange(0, i as int));
    }
    assert(src@.subrange(0, src@.len() as int) =~= src@);
}

/// Two byte arrays with the same bytes are equal.
proof fn lemma_array_eq<const N: usize>(a: [u8; N], b: [u8; N])
    requires
        a@ == b@,
    ensures
        a == b,
{
    assert(a =~= b);
}

impl Fundraiser {
    /// Size in bytes of a fundraiser account.
    pub const LEN: usize = 90;

    /// The account data that holds this fundraiser.
    pub open spec fn account_bytes(self) -> Seq<u8> {
        self.maker@ + self.mint_to_raise@ + self.amount_to_raise@ + self.current_amount@
            + self.time_started@ + seq![self.duration, self.bump]
    }

    /// Reads the fundraiser that an account's data holds: refused unless the
    /// data is exactly the size of a fundraiser.
    pub fn from_account_info(data: &[u8]) -> (r: Result<Fundraiser, ProgramError>)
        ensures
            match r {
                Ok(f) => data@.len() == Fundraiser::LEN && f.account_bytes() == data@,
                Err(e) => data@.len() != Fundraiser::LEN && e == ProgramError::InvalidAccountData,
            },
    {
        if data.len() != Fundraiser::LEN {
            return Err(ProgramError::InvalidAccountData);
        }
        let f = Fundraiser {
            maker: copy_bytes::<32>(data, 0),
            mint_to_raise: copy_bytes::<32>(data, 32),
            amount_to_raise: copy_bytes::<8>(data, 64),
            current_amount: copy_bytes::<8>(data, 72),
            time_started: copy_bytes::<8>(data, 80),
            duration: data[88],
            bump: data[89],
        };
        assert(f.account_bytes() =~= data@);
        Ok(f)
    }
}

impl Fundraiser {
    /// Writes this fundraiser as account data.
    pub fn to_account_data(&self) -> (r: Vec<u8>)
        ensures
            r@ == self.account_bytes(),
            r@.len() == Fundraiser::LEN,
    {
        let mut out: Vec<u8> = Vec::new();
        push_bytes(&mut out, &self.maker);
        push_bytes(&mut out, &self.mint_to_raise);
        push_bytes(&mut out, &self.amount_to_raise);
        push_bytes(&mut out, &self.current_amount);
        push_bytes(&mut out, &self.time_started);
        out.push(self.duration);
        out.push(self.bump);
        assert(out@ =~= self.account_bytes());
        out
    }

    /// Records the maker's address.
    pub fn set_maker(&mut self, maker: &[u8; 32])
        ensures
            final(self).maker == *maker,
            final(self)@ == (FundraiserModel { maker: maker@, ..old(self)@ }),
    {
        self.maker = *maker;
    }

    /// Records the mint that the fundraiser collects.
    pub fn set_mint_to_raise(&mut self, mint_to_raise: &[u8; 32])
        ensures
            final(self).mint_to_raise == *mint_to_raise,
            final(self)@ == (FundraiserModel { mint_to_raise: mint_to_raise@, ..old(self)@ }),
    {
        self.mint_to_raise = *mint_to_raise;
    }

    /// Records the target, as eight little-endian bytes.
    pub fn set_amount_to_raise(&mut self, amount_to_raise: u64)
        ensures
            final(self).amount_to_raise@ == encode_u64(amount_to_raise),
            final(self)@ == (FundraiserModel { amount_to_raise, ..old(self)@ }),
    {
        self.amount_to_raise = u64_to_le_bytes(amount_to_raise);
        proof {
            lemma_decode_encode_u64(amount_to_raise);
        }
    }

    /// Records the amount collected so far, as eight little-endian bytes.
    pub fn set_current_amount(&mut self, current_amount: u64)
        ensures
            final(self).current_amount@ == encode_u64(current_amount),
            final(self)@ == (FundraiserModel { current_amount, ..old(self)@ }),
    {
        self.current_amount = u64_to_le_bytes(current_amount);
        proof {
            lemma_decode_encode_u64(current_amount);
        }
    }

    /// Records the start of the campaign (a Unix timestamp), as eight
    /// little-endian two's-complement bytes.
    pub fn set_time_started(&mut self, timestamp: i64)
        ensures
            final(self).time_started@ == encode_i64(timestamp),
            final(self)@ == (FundraiserModel { time_started: timestamp, ..old(self)@ }),
    {
        self.time_started = i64_to_le_bytes(timestamp);
        proof {
            lemma_decode_encode_i64(timestamp);
        }
    }

    /// Records how many days the campaign runs.
    pub fn set_duration(&mut self, duration: u8)
        ensures
            final(self).duration == duration,
            final(self)@ == (FundraiserModel { duration, ..old(self)@ }),
    {
        self.duration = duration;
    }

    /// Records the bump of the fundraiser's address.
    pub fn set_bump(&mut self, bump: u8)
        ensures
            final(self).bump == bump,
            final(self)@ == (FundraiserModel { bump, ..old(self)@ }),
    {
        self.bump = bump;
    }

    /// The target.
    pub fn amount_to_raise(&self) -> (r: u64)
        ensures
            r == self@.amount_to_raise,
            r == decode_u64(self.amount_to_raise@),
    {
        proof {
            lemma_encode_decode_u64(self.amount_to_raise@);
        }
        u64_from_le_bytes(self.amount_to_raise)
    }

    /// The amount collected so far.
    pub fn current_amount(&self) -> (r: u64)
        ensures
            r == self@.current_amount,
            r == decode_u64(self.current_amount@),
    {
        proof {
            lemma_encode_decode_u64(self.current_amount@);
        }
        u64_from_le_bytes(self.current_amount)
    }

    /// The start of the campaign, as a Unix timestamp.
    pub fn time_started(&self) -> (r: i64)
        ensures
            r == self@.time_started,
            r == decode_i64(self.time_started@),
    {
        proof {
            lemma_encode_decode_i64(self.time_started@);
        }
        i64_from_le_bytes(self.time_started)
    }
}

impl Default for Fundraiser {
    /// A fundraiser whose bytes are all zero, as a freshly created account is.
    fn default() -> (r: Fundraiser)
        ensures
            r.account_bytes() == Seq::new(Fundraiser::LEN as nat, |i: int| 0u8),
    {
        let r = Fundraiser {
            maker: [0u8; 32],
            mint_to_raise: [0u8; 32],
            amount_to_raise: [0u8; 8],
            current_amount: [0u8; 8],
            time_started: [0u8; 8],
            duration: 0,
            bump: 0,
        };
        assert(r.account_bytes() =~= Seq::new(Fundraiser::LEN as nat, |i: int| 0u8));
        r
    }
}

/// The contributor account: how much one contributor has put into one
/// fundraiser, as eight little-endian bytes.
#[derive(Clone, Copy, Debug, PartialEq, Eq)]
pub struct Contributor {
    pub amount: [u8; 8],
}

impl Contributor {
    /// Size in bytes of a contributor account.
    pub const LEN: usize = 8;

    /// The account data that holds this contributor record.
    pub open spec fn account_bytes(self) -> Seq<u8> {
        self.amount@
    }

    /// The recorded total of the contributor, decoded.
    pub open spec fn total(self) -> u64 {
        decode_u64(self.amount@) as u64
    }

    /// Reads the contributor record that an account's data holds: refused
    /// unless the data is exactly the size of a contributor record.
    pub fn from_account_info(data: &[u8]) -> (r: Result<Contributor, ProgramError>)
        ensures
            match r {
                Ok(c) => data@.len() == Contributor::LEN && c.account_bytes() == data@,
                Err(e) => data@.len() != Contributor::LEN && e == ProgramError::InvalidAccountData,
            },
    {
        if data.len() != Contributor::LEN {
            return Err(ProgramError::InvalidAccountData);
        }
        Ok(Contributor { amount: copy_bytes::<8>(data, 0) })
    }

    /// Writes this contributor record as account data.
    pub fn to_account_data(&self) -> (r: Vec<u8>)
        ensures
            r@ == self.account_bytes(),
            r@.len() == Contributor::LEN,
    {
        let mut out: Vec<u8> = Vec::new();
        push_bytes(&mut out, &self.amount);
        assert(out@ =~= self.account_bytes());
        out
    }

    /// The recorded total of the contributor.
    pub fn amount(&self) -> (r: u64)
        ensures
            r == self.total(),
    {
        proof {
            lemma_encode_decode_u64(self.amount@);
        }
        u64_from_le_bytes(self.amount)
    }

    /// Records a new total for the contributor.
    pub fn set_amount(&mut self, amount: u64)
        ensures
            final(self).amount@ == encode_u64(amount),
            final(self).total() == amount,
    {
        self.amount = u64_to_le_bytes(amount);
        proof {
            lemma_decode_encode_u64(amount);
        }
    }
}

/// A fundraiser is determined by what it records: two fundraisers with the
/// same model are the same fundraiser.
pub proof fn law_fundraiser_model_determines_bytes(a: Fundraiser, b: Fundraiser)
    requires
        a@ == b@,
    ensures
        a == b,
        a.account_bytes() == b.account_bytes(),
{
    lemma_array_eq(a.maker, b.maker);
    lemma_array_eq(a.mint_to_raise, b.mint_to_raise);
    lemma_encode_decode_u64(a.amount_to_raise@);
    lemma_encode_decode_u64(b.amount_to_raise@);
    lemma_array_eq(a.amount_to_raise, b.amount_to_raise);
    lemma_encode_decode_u64(a.current_amount@);
    lemma_encode_decode_u64(b.current_amount@);
    lemma_array_eq(a.current_amount, b.current_amount);
    lemma_encode_decode_i64(a.time_started@);
    lemma_encode_decode_i64(b.time_started@);
    lemma_array_eq(a.time_started, b.time_started);
}

/// Reading back account data that a fundraiser was written as gives the same
/// fundraiser: two fundraisers written as the same bytes are equal.
pub proof fn law_fundraiser_bytes_roundtrip(a: Fundraiser, b: Fundraiser)
    requires
        a.account_bytes() == b.account_bytes(),
    ensures
        a == b,
{
    let s = a.account_bytes();
    assert(a.maker@ =~= s.subrange(0, 32));
    assert(b.maker@ =~= s.subrange(0, 32));
    assert(a.mint_to_raise@ =~= s.subrange(32, 64));
    assert(b.mint_to_raise@ =~= s.subrange(32, 64));
    assert(a.amount_to_raise@ =~= s.subrange(64, 72));
    assert(b.amount_to_raise@ =~= s.subrange(64, 72));
    assert(a.current_amount@ =~= s.subrange(72, 80));
    assert(b.current_amount@ =~= s.subrange(72, 80));
    assert(a.time_started@ =~= s.subrange(80, 88));
    assert(b.time_started@ =~= s.subrange(80, 88));
    assert(a.duration == s[88]);
    assert(b.duration == s[88]);
    assert(a.bump == s[89]);
    assert(b.bump == s[89]);
    lemma_array_eq(a.maker, b.maker);
    lemma_array_eq(a.mint_to_raise, b.mint_to_raise);
    lemma_array_eq(a.amount_to_raise, b.amount_to_raise);
    lemma_array_eq(a.current_amount, b.current_amount);
    lemma_array_eq(a.time_started, b.time_started);
}

/// A contributor record read back from the data it was written as is the same
/// record.
pub proof fn law_contributor_bytes_roundtrip(a: Contributor, b: Contributor)
    requires
        a.account_bytes() == b.account_bytes(),
    ensures
        a == b,
{
    lemma_array_eq(a.amount, b.amount);
}

/// Reading a field back after writing it gives the written value.
pub proof fn law_u64_field_write_read(field: [u8; 8], x: u64)
    requires
        field@ == encode_u64(x),
    ensures
        decode_u64(field@) == x,
{
    lemma_decode_encode_u64(x);
}

/// Reading the start time back after writing it gives the written timestamp.
pub proof fn law_i64_field_write_read(field: [u8; 8], t: i64)
    requires
        field@ == encode_i64(t),
    ensures
        decode_i64(field@) == t,
{
    lemma_decode_encode_i64(t);
}

/// What the 90 bytes of a fundraiser account record, decoded.
pub open spec fn fundraiser_model_of_bytes(d: Seq<u8>) -> FundraiserModel {
    FundraiserModel {
        maker: d.subrange(0, 32),
        mint_to_raise: d.subrange(32, 64),
        amount_to_raise: decode_u64(d.subrange(64, 72)) as u64,
        current_amount: decode_u64(d.subrange(72, 80)) as u64,
        time_started: decode_i64(d.subrange(80, 88)) as i64,
        duration: d[88],
        bump: d[89],
    }
}

/// A fundraiser records what its account bytes decode to.
pub proof fn lemma_model_of_account_bytes(f: Fundraiser)
    ensures
        f@ == fundraiser_model_of_bytes(f.account_bytes()),
{
    let s = f.account_bytes();
    assert(f.maker@ =~= s.subrange(0, 32));
    assert(f.mint_to_raise@ =~= s.subrange(32, 64));
    assert(f.amount_to_raise@ =~= s.subrange(64, 72));
    assert(f.current_amount@ =~= s.subrange(72, 80));
    assert(f.time_started@ =~= s.subrange(80, 88));
}

} // verus!
