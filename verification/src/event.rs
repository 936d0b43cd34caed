//! The domain event a registration announces, and the channel it goes out on.
//!
//! The event is one JSON object, `{"event":"user.registered","user":{...}}`,
//! built here byte by byte so that the exact payload is pinned down: decimal
//! rendering of the id and JSON string escaping are specified and proved
//! rather than delegated. The channel is modelled as the sequence of events
//! published so far; delivery beyond the local send is not awaited, so a
//! successful publish promises only that the event left on the channel.

use vstd::prelude::*;
use vstd::string::StringSliceAdditionalSpecFns;

verus! {

/// The decimal digits of `n`, most significant first.
pub open spec fn dec_rep(n: int) -> Seq<u8>
    decreases n,
{
    if n < 10 {
        seq![(0x30 + n) as u8]
    } else {
        dec_rep(n / 10).push((0x30 + n % 10) as u8)
    }
}

/// The decimal rendering of `n`, with a leading minus sign when negative.
pub open spec fn dec_rep_signed(n: int) -> Seq<u8> {
    if n >= 0 {
        dec_rep(n)
    } else {
        seq![0x2du8] + dec_rep(-n)
    }
}

/// The lowercase hex digit of `n`.
pub open spec fn hex_digit(n: int) -> u8 {
    if n < 10 {
        (0x30 + n) as u8
    } else {
        (0x61 + (n - 10)) as u8
    }
}

/// How one byte of a string appears inside a JSON string literal: quote and
/// backslash are escaped, the named control characters get their short
/// escapes, any other control character a `\u00..` escape, and every other
/// byte stands for itself.
pub open spec fn escape_byte(b: u8) -> Seq<u8> {
    if b == 0x22 {
        seq![0x5cu8, 0x22u8]
    } else if b == 0x5c {
        seq![0x5cu8, 0x5cu8]
    } else if b == 0x08 {
        seq![0x5cu8, 0x62u8]
    } else if b == 0x09 {
        seq![0x5cu8, 0x74u8]
    } else if b == 0x0a {
        seq![0x5cu8, 0x6eu8]
    } else if b == 0x0c {
        seq![0x5cu8, 0x66u8]
    } else if b == 0x0d {
        seq![0x5cu8, 0x72u8]
    } else if b < 0x20 {
        seq![0x5cu8, 0x75u8, 0x30u8, 0x30u8, hex_digit(b as int / 16), hex_digit(b as int % 16)]
    } else {
        seq![b]
    }
}

/// A whole string's bytes, escaped for a JSON string literal.
pub open spec fn escape_bytes(s: Seq<u8>) -> Seq<u8>
    decreases s.len(),
{
    if s.len() == 0 {
        Seq::empty()
    } else {
        escape_bytes(s.drop_last()) + escape_byte(s.last())
    }
}

/// The payload announcing a registered user: one JSON object holding the
/// event name and a summary of the user.
pub open spec fn registered_event_payload(id: int, name: Seq<u8>, email: Seq<u8>) -> Seq<u8> {
    "{\"event\":\"user.registered\",\"user\":{\"id\":".spec_bytes() + dec_rep_signed(id)
        + ",\"username\":\"".spec_bytes() + escape_bytes(name) + "\",\"email\":\"".spec_bytes()
        + escape_bytes(email) + "\"}}".spec_bytes()
}

/// Append the bytes of `s` to `out`.
fn push_slice(out: &mut Vec<u8>, s: &[u8])
    ensures
        final(out)@ == old(out)@ + s@,
{
    let n = s.len();
    let mut i: usize = 0;
    while i < n
        invariant
            i <= n,
            n == s@.len(),
            out@ == old(out)@ + s@.take(i as int),
        decreases n - i,
    {
        out.push(s[i]);
        proof {
            assert(s@.take(i + 1).drop_last() =~= s@.take(i as int));
            assert(out@ =~= old(out)@ + s@.take(i + 1));
        }
        i += 1;
    }
    proof {
        assert(s@.take(n as int) =~= s@);
    }
}

/// Append the decimal digits of `n`.
fn push_dec(out: &mut Vec<u8>, n: u32)
    ensures
        final(out)@ == old(out)@ + dec_rep(n as int),
    decreases n,
{
    if n < 10 {
        out.push(0x30 + (n as u8));
    } else {
        push_dec(out, n / 10);
        out.push(0x30 + ((n % 10) as u8));
        proof {
            assert(final(out)@ =~= old(out)@ + dec_rep(n as int));
        }
    }
}

/// Append the decimal rendering of `n`, minus sign included.
fn push_dec_signed(out: &mut Vec<u8>, n: i32)
    ensures
        final(out)@ == old(out)@ + dec_rep_signed(n as int),
{
    if n >= 0 {
        push_dec(out, n as u32);
    } else {
        out.push(0x2d);
        let magnitude: u32 = (-(n as i64)) as u32;
        push_dec(out, magnitude);
        proof {
            assert(final(out)@ =~= old(out)@ + dec_rep_signed(n as int));
        }
    }
}

fn push_hex_digit(out: &mut Vec<u8>, n: u8)
    requires
        n < 16,
    ensures
        final(out)@ == old(out)@ + seq![hex_digit(n as int)],
{
    if n < 10 {
        out.push(0x30 + n);
    } else {
        out.push(0x61 + (n - 10));
    }
}

/// Append the bytes of `s`, escaped for a JSON string literal.
fn push_escaped(out: &mut Vec<u8>, s: &[u8])
    ensures
        final(out)@ == old(out)@ + escape_bytes(s@),
{
    let n = s.len();
    let mut i: usize = 0;
    while i < n
        invariant
            i <= n,
            n == s@.len(),
            out@ == old(out)@ + escape_bytes(s@.take(i as int)),
        decreases n - i,
    {
        let b = s[i];
        if b == 0x22 {
            out.push(0x5c);
            out.push(0x22);
        } else if b == 0x5c {
            out.push(0x5c);
            out.push(0x5c);
        } else if b == 0x08 {
            out.push(0x5c);
            out.push(0x62);
        } else if b == 0x09 {
            out.push(0x5c);
            out.push(0x74);
        } else if b == 0x0a {
            out.push(0x5c);
            out.push(0x6e);
        } else if b == 0x0c {
            out.push(0x5c);
            out.push(0x66);
        } else if b == 0x0d {
            out.push(0x5c);
            out.push(0x72);
        } else if b < 0x20 {
            out.push(0x5c);
            out.push(0x75);
            out.push(0x30);
            out.push(0x30);
            push_hex_digit(out, b / 16);
            push_hex_digit(out, b % 16);
        } else {
            out.push(b);
        }
        proof {
            assert(s@.take(i + 1).drop_last() =~= s@.take(i as int));
            assert(s@.take(i + 1).last() == s@[i as int]);
            assert(out@ =~= old(out)@ + escape_bytes(s@.take(i + 1)));
        }
        i += 1;
    }
    proof {
        assert(s@.take(n as int) =~= s@);
    }
}

/// The subject registered-user events are published under.
pub fn registered_event_subject() -> (s: &'static str)
    ensures
        s@ == "user.registered"@,
{
    "user.registered"
}

/// Serialize the event announcing the registered user as JSON bytes.
pub fn encode_registered_event(id: i32, username: &str, email: &str) -> (r: Vec<u8>)
    ensures
        r@ == registered_event_payload(id as int, username.spec_bytes(), email.spec_bytes()),
{
    let mut out: Vec<u8> = Vec::new();
    push_slice(&mut out, "{\"event\":\"user.registered\",\"user\":{\"id\":".as_bytes());
    push_dec_signed(&mut out, id);
    push_slice(&mut out, ",\"username\":\"".as_bytes());
    push_escaped(&mut out, username.as_bytes());
    push_slice(&mut out, "\",\"email\":\"".as_bytes());
    push_escaped(&mut out, email.as_bytes());
    push_slice(&mut out, "\"}}".as_bytes());
    proof {
        assert(out@ =~= registered_event_payload(
            id as int,
            username.spec_bytes(),
            email.spec_bytes(),
        ));
    }
    out
}

/// How a publish fails: the broker cannot be reached, or does not answer in
/// time. A failed publish never undoes store writes that already committed.
#[derive(Clone, Copy, Debug, PartialEq, Eq, Structural)]
pub enum PublishError {
    Unreachable,
    Timeout,
}

/// One event as it left on the channel.
#[derive(Debug)]
pub struct PublishedEvent {
    pub subject: String,
    pub payload: Vec<u8>,
}

/// The event channel, modelled as everything published on it so far, oldest
/// first. Delivery to consumers is fire-and-forget and outside the model.
#[derive(Debug)]
pub struct EventBus {
    published: Vec<PublishedEvent>,
}

impl EventBus {
    /// Everything published so far, oldest first.
    pub closed spec fn published(self) -> Seq<PublishedEvent> {
        self.published@
    }

    /// A channel on which nothing has been published yet.
    pub fn new() -> (r: Self)
        ensures
            r.published() == Seq::<PublishedEvent>::empty(),
    {
        EventBus { published: Vec::new() }
    }

    /// How many events have been published.
    pub fn published_count(&self) -> (n: usize)
        ensures
            n == self.published().len(),
    {
        self.published.len()
    }

    /// The `i`th event published, oldest first.
    pub fn published_at(&self, i: usize) -> (e: &PublishedEvent)
        requires
            i < self.published().len(),
        ensures
            *e == self.published()[i as int],
    {
        &self.published[i]
    }

    /// Send one event. The local send always succeeds; what consumers make
    /// of it is not awaited.
    pub fn publish(&mut self, subject: String, payload: Vec<u8>) -> (r: Result<(), PublishError>)
        ensures
            r is Ok,
            final(self).published() == old(self).published().push(
                PublishedEvent { subject, payload },
            ),
    {
        self.published.push(PublishedEvent { subject, payload });
        Ok(())
    }
}

} // verus!
