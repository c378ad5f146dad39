//! What an operation takes from the clock and from the random source.
use crate::text::{chars_of, text2};
use vstd::prelude::*;

verus! {

/// A reading of the system's clock.
#[verifier::external_type_specification]
#[verifier::external_body]
pub struct ExSystemTime(std::time::SystemTime);

/// The failure of a subtraction of readings.
#[verifier::external_type_specification]
#[verifier::external_body]
pub struct ExSystemTimeError(std::time::SystemTimeError);

/// `std::time::SystemTime::now` reads the system's clock; nothing is claimed of the reading.
pub assume_specification[ std::time::SystemTime::now ]() -> std::time::SystemTime
;

/// `std::time::Duration::as_secs`; nothing is claimed of the number.
pub assume_specification[ std::time::Duration::as_secs ](span: &std::time::Duration) -> u64
;

/// `std::time::SystemTime::duration_since`, from the start of 1970; nothing is claimed of the
/// span, which rests on the clock.
#[verifier::external_body]
fn since_epoch(reading: std::time::SystemTime) -> Result<
    std::time::Duration,
    std::time::SystemTimeError,
> {
    reading.duration_since(std::time::UNIX_EPOCH)
}

/// Seconds since the start of 1970 by the system's clock; [`unix_seconds`] of what it reads.
pub fn now_unix() -> u64 {
    match since_epoch(std::time::SystemTime::now()) {
        Ok(span) => unix_seconds(Some(span.as_secs())),
        Err(_) => unix_seconds(None),
    }
}

/// The seconds that are told where so many have passed since the start of 1970: these, or zero
/// where the clock stands before that.
pub fn unix_seconds(passed: Option<u64>) -> (seconds: u64)
    ensures
        seconds == (match passed {
            Some(passed) => passed,
            None => 0,
        }),
{
    match passed {
        Some(passed) => passed,
        None => 0,
    }
}

/// The form of a random UUID in text: 36 characters, hyphens at four places and digits of base
/// sixteen elsewhere; of version 4 and of the usual variant.
pub open spec fn uuid_text(text: Seq<char>) -> bool {
    &&& text.len() == 36
    &&& forall|i: int|
        0 <= i < 36 ==> if i == 8 || i == 13 || i == 18 || i == 23 {
            #[trigger] text[i] == '-'
        } else {
            '0' <= text[i] <= '9' || 'a' <= text[i] <= 'f'
        }
    &&& text[14] == '4'
    &&& text[19] == '8' || text[19] == '9' || text[19] == 'a' || text[19] == 'b'
}

/// `uuid::Uuid::new_v4` in its hyphenated text form. Of the random digits nothing is claimed.
#[verifier::external_body]
fn fresh_uuid() -> (text: String)
    ensures
        uuid_text(text@),
{
    uuid::Uuid::new_v4().to_string()
}

/// One reading of the clock and a supply of identifiers, for one operation.
pub struct Draw {
    now: u64,
    ids: Vec<String>,
    used: usize,
}

/// Model of [`Draw`]: the reading and the identifiers not yet used.
#[verifier::ext_equal]
pub struct DrawView {
    pub now: u64,
    pub ids: Seq<Seq<char>>,
}

impl DrawView {
    /// What is left once `count` identifiers were used.
    pub open spec fn after(self, count: nat) -> DrawView {
        DrawView { now: self.now, ids: self.ids.skip(count as int) }
    }
}

/// Using identifiers twice is using them once.
pub broadcast proof fn after_after(draw: DrawView, a: nat, b: nat)
    requires
        a + b <= draw.ids.len(),
    ensures
        #[trigger] draw.after(a).after(b) == draw.after(a + b),
{
    assert(draw.after(a).after(b).ids =~= draw.after(a + b).ids);
}

/// Using no identifier leaves all.
pub broadcast proof fn after_nothing(draw: DrawView)
    ensures
        #[trigger] draw.after(0) == draw,
{
    assert(draw.after(0).ids =~= draw.ids);
}

pub broadcast group group_draw {
    after_after,
    after_nothing,
}

impl View for Draw {
    type V = DrawView;

    closed spec fn view(&self) -> DrawView {
        DrawView { now: self.now, ids: crate::model::views(self.ids@).skip(self.used as int) }
    }
}

impl Draw {
    #[verifier::type_invariant]
    spec fn within(self) -> bool {
        self.used <= self.ids@.len()
    }

    /// A reading and identifiers that are given.
    pub fn given(now: u64, ids: Vec<String>) -> (draw: Draw)
        ensures
            draw@ == (DrawView { now, ids: crate::model::views(ids@) }),
    {
        let draw = Draw { now, ids, used: 0 };
        assert(draw@.ids =~= crate::model::views(ids@));
        draw
    }

    /// Reads the clock and makes `count` random identifiers.
    pub fn take(count: usize) -> (draw: Draw)
        ensures
            draw@.ids.len() == count,
            forall|i: int| 0 <= i < count ==> uuid_text(#[trigger] draw@.ids[i]),
    {
        let now = now_unix();
        let mut ids: Vec<String> = Vec::new();
        for i in 0..count
            invariant
                ids@.len() == i,
                forall|j: int| 0 <= j < i ==> uuid_text((#[trigger] ids@[j])@),
        {
            ids.push(fresh_uuid());
        }
        let draw = Draw { now, ids, used: 0 };
        assert(draw@.ids =~= crate::model::views(ids@));
        draw
    }

    /// The reading of the clock.
    pub fn now(&self) -> (now: u64)
        ensures
            now == self@.now,
    {
        self.now
    }

    /// How many identifiers are left.
    pub fn left(&self) -> (count: usize)
        ensures
            count == self@.ids.len(),
    {
        proof {
            use_type_invariant(self);
        }
        self.ids.len() - self.used
    }

    /// Uses the next identifier.
    pub fn next_id(&mut self) -> (id: String)
        requires
            old(self)@.ids.len() > 0,
        ensures
            id@ == old(self)@.ids[0],
            final(self)@ == old(self)@.after(1),
    {
        proof {
            use_type_invariant(&*self);
        }
        let ghost before = self@;
        assert(self.used < self.ids.len());
        let id = self.ids[self.used].clone();
        self.used = self.used + 1;
        assert(self@.ids =~= before.after(1).ids);
        id
    }
}

/// A text without its hyphens.
pub open spec fn undashed(text: Seq<char>) -> Seq<char> {
    text.filter(|c: char| c != '-')
}

/// The grant token that an identifier gives.
pub open spec fn grant_token_of(id: Seq<char>) -> Seq<char> {
    "tg_"@ + undashed(id)
}

/// The grant token that an identifier gives.
pub fn grant_token(id: &str) -> (token: String)
    ensures
        token@ == grant_token_of(id@),
{
    let chars = chars_of(id);
    let mut bare = String::new();
    let ghost keep = |c: char| c != '-';
    assert(chars@.take(0).filter(keep) =~= Seq::empty()) by {
        reveal(Seq::filter);
    }
    for i in 0..chars.len()
        invariant
            keep == (|c: char| c != '-'),
            bare@ == chars@.take(i as int).filter(keep),
    {
        proof {
            reveal(Seq::filter);
            assert(chars@.take(i + 1).drop_last() =~= chars@.take(i as int));
            assert(chars@.take(i + 1).last() == chars@[i as int]);
        }
        if chars[i] != '-' {
            bare.push(chars[i]);
        }
    }
    assert(chars@.take(chars@.len() as int) =~= chars@);
    text2("tg_", bare.as_str())
}

/// When something that lives for `ttl` seconds from `now` ends.
pub open spec fn expiry(now: u64, ttl: Option<u64>) -> Option<u64> {
    match ttl {
        Some(seconds) => Some((now + seconds) as u64),
        None => None,
    }
}

/// The end of a life of `ttl` seconds from `now` can be told in 64 bits.
pub open spec fn expiry_fits(now: u64, ttl: Option<u64>) -> bool {
    ttl matches Some(seconds) ==> now + seconds <= u64::MAX
}

/// When something that lives for `ttl` seconds from `now` ends.
pub fn expires_at(now: u64, ttl: Option<u64>) -> (end: Option<u64>)
    requires
        expiry_fits(now, ttl),
    ensures
        end == expiry(now, ttl),
{
    match ttl {
        Some(seconds) => Some(now + seconds),
        None => None,
    }
}

/// Whether the end of a life of `ttl` seconds from `now` can be told in 64 bits.
pub fn fits(now: u64, ttl: Option<u64>) -> (fits: bool)
    ensures
        fits == expiry_fits(now, ttl),
{
    match ttl {
        Some(seconds) => seconds <= u64::MAX - now,
        None => true,
    }
}

/// A grant token is made of all the digits of an identifier and of nothing else, behind its mark.
pub proof fn grant_tokens_hold_their_digits(id: Seq<char>)
    ensures
        grant_token_of(id) == "tg_"@ + id.filter(|c: char| c != '-'),
{
}

} // verus!
