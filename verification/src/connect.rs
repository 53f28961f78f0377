//! From what an operator typed to a worker that is ready to run.

use vstd::prelude::*;
use vstd::string::StringSliceAdditionalSpecFns;
use crate::cli::same_bytes;
use crate::error::ValidationError;
use crate::fragment_request::FragmentRequest;
use crate::worker::{Worker, WorkerState};

verus! {

/// Whether a byte is an ASCII decimal digit.
pub open spec fn is_digit(b: u8) -> bool {
    0x30 <= b <= 0x39
}

/// Whether every byte of a run is a decimal digit.
pub open spec fn all_digits(s: Seq<u8>) -> bool {
    forall|i: int| 0 <= i < s.len() ==> is_digit(#[trigger] s[i])
}

/// The number that a run of decimal digits spells.
pub open spec fn digits_value(s: Seq<u8>) -> nat
    decreases s.len(),
{
    if s.len() == 0 {
        0
    } else {
        digits_value(s.drop_last()) * 10 + (s.last() - 0x30) as nat
    }
}

/// The digits of a number's text: the text without a leading `+`, if it has
/// one.
pub open spec fn unsigned_digits(s: Seq<u8>) -> Seq<u8> {
    if s.len() > 0 && s[0] == 0x2b {
        s.subrange(1, s.len() as int)
    } else {
        s
    }
}

/// The number that a text spells, if it spells one no larger than `max`: an
/// optional `+`, then one or more decimal digits and nothing else.
pub open spec fn decimal_of(s: Seq<u8>, max: nat) -> Option<nat> {
    let d = unsigned_digits(s);
    if d.len() > 0 && all_digits(d) && digits_value(d) <= max {
        Some(digits_value(d))
    } else {
        None
    }
}

/// A longer run of digits spells a number at least as large as any of its
/// prefixes.
pub proof fn lemma_digits_value_grows(s: Seq<u8>, i: int)
    requires
        0 <= i <= s.len(),
        all_digits(s),
    ensures
        digits_value(s.subrange(0, i)) <= digits_value(s),
    decreases s.len() - i,
{
    if i == s.len() {
        assert(s.subrange(0, i) =~= s);
    } else {
        let longer = s.subrange(0, i + 1);
        assert(longer.drop_last() =~= s.subrange(0, i));
        assert(is_digit(s[i]));
        assert(longer.last() == s[i]);
        lemma_digits_value_grows(s, i + 1);
    }
}

/// Reads a decimal number no larger than `max`: an optional `+`, then digits
/// only, at least one. Anything else, or a larger number, yields `None`.
pub fn parse_decimal(text: &str, max: u32) -> (r: Option<u32>)
    ensures
        match decimal_of(text.spec_bytes(), max as nat) {
            Some(n) => r == Some(n as u32),
            None => r.is_none(),
        },
{
    let bytes = text.as_bytes();
    let start: usize = if bytes.len() > 0 && bytes[0] == 0x2b {
        1
    } else {
        0
    };
    if start == bytes.len() {
        return None;
    }
    let ghost d = unsigned_digits(bytes@);
    assert(d =~= bytes@.subrange(start as int, bytes@.len() as int));
    let mut acc: u64 = 0;
    let mut i: usize = start;
    assert(d.subrange(0, 0) =~= Seq::<u8>::empty());
    while i < bytes.len()
        invariant
            start <= i <= bytes@.len(),
            bytes@ == text.spec_bytes(),
            d == unsigned_digits(bytes@),
            d == bytes@.subrange(start as int, bytes@.len() as int),
            d.len() > 0,
            all_digits(d.subrange(0, i - start)),
            acc == digits_value(d.subrange(0, i - start)),
            acc <= max,
        decreases bytes@.len() - i,
    {
        let b = bytes[i];
        assert(b == d[i - start]);
        if b < 0x30 || b > 0x39 {
            assert(!all_digits(d));
            return None;
        }
        let next: u64 = acc * 10 + (b - 0x30) as u64;
        proof {
            let done = d.subrange(0, i - start);
            let more = d.subrange(0, i - start + 1);
            assert(more.drop_last() =~= done);
            assert(more.last() == b);
            assert(all_digits(more)) by {
                assert forall|j: int| 0 <= j < more.len() implies is_digit(#[trigger] more[j]) by {
                    if j < done.len() {
                        assert(more[j] == done[j]);
                    }
                }
            }
            assert(next == digits_value(more));
        }
        if next > max as u64 {
            proof {
                if all_digits(d) {
                    lemma_digits_value_grows(d, i - start + 1);
                }
            }
            return None;
        }
        acc = next;
        i += 1;
    }
    assert(d.subrange(0, i - start) =~= d);
    Some(acc as u32)
}

/// Whether a run of bytes is one part of a dotted address: one to three
/// decimal digits, without a leading zero unless it is `0` itself, that
/// spell a number up to 255.
pub open spec fn is_octet(s: Seq<u8>) -> bool {
    &&& 1 <= s.len() <= 3
    &&& all_digits(s)
    &&& (s.len() > 1 ==> s[0] != 0x30)
    &&& digits_value(s) <= 255
}

/// Whether `s` is four parts separated by the dots at `i`, `j` and `k`.
pub open spec fn is_dotted_at(s: Seq<u8>, i: int, j: int, k: int) -> bool {
    &&& 0 <= i < j < k < s.len()
    &&& s[i] == 0x2e
    &&& s[j] == 0x2e
    &&& s[k] == 0x2e
    &&& is_octet(s.subrange(0, i))
    &&& is_octet(s.subrange(i + 1, j))
    &&& is_octet(s.subrange(j + 1, k))
    &&& is_octet(s.subrange(k + 1, s.len() as int))
}

/// Whether a run of bytes is a dotted IPv4 address: four parts separated by
/// three dots.
pub open spec fn is_ipv4(s: Seq<u8>) -> bool {
    exists|i: int, j: int, k: int| is_dotted_at(s, i, j, k)
}

/// Whether a run of bytes names a host that a worker may connect to: the
/// word `localhost`, or a dotted IPv4 address.
pub open spec fn is_host(s: Seq<u8>) -> bool {
    s == "localhost".spec_bytes() || is_ipv4(s)
}

/// Whether `s` has a colon at `i` and nowhere else.
pub open spec fn is_split_at(s: Seq<u8>, i: int) -> bool {
    &&& 0 <= i < s.len()
    &&& s[i] == 0x3a
    &&& forall|j: int| 0 <= j < s.len() && j != i ==> #[trigger] s[j] != 0x3a
}

/// Whether a part may end at `e`: at the end of the text, or before a byte
/// that is no digit.
pub open spec fn ends_part(s: Seq<u8>, e: int) -> bool {
    0 <= e <= s.len() && (e == s.len() || !is_digit(s[e]))
}

/// The number that up to three digits spell.
fn small_number(bytes: &[u8], from: usize, to: usize) -> (n: u32)
    requires
        from <= to <= bytes@.len(),
        to - from <= 3,
        all_digits(bytes@.subrange(from as int, to as int)),
    ensures
        n == digits_value(bytes@.subrange(from as int, to as int)),
        n <= 999,
{
    let ghost d = bytes@.subrange(from as int, to as int);
    let mut n: u32 = 0;
    let mut i: usize = from;
    assert(d.subrange(0, 0) =~= Seq::<u8>::empty());
    while i < to
        invariant
            from <= i <= to <= bytes@.len(),
            to - from <= 3,
            d == bytes@.subrange(from as int, to as int),
            all_digits(d),
            n == digits_value(d.subrange(0, i - from)),
            i - from == 0 ==> n == 0,
            i - from == 1 ==> n <= 9,
            i - from == 2 ==> n <= 99,
            i - from == 3 ==> n <= 999,
        decreases to - i,
    {
        let b = bytes[i];
        assert(b == d[i - from]);
        assert(is_digit(d[i - from]));
        proof {
            let more = d.subrange(0, i - from + 1);
            assert(more.drop_last() =~= d.subrange(0, i - from));
            assert(more.last() == b);
        }
        n = n * 10 + (b - 0x30) as u32;
        i += 1;
    }
    assert(d.subrange(0, i - from) =~= d);
    n
}

/// Finds where the part that starts at `from` ends, if a part starts there.
/// A part can end in one place only: where its digits stop.
fn octet_end(bytes: &[u8], from: usize) -> (r: Option<usize>)
    requires
        from <= bytes@.len(),
    ensures
        match r {
            Some(e) => from < e && ends_part(bytes@, e as int) && is_octet(
                bytes@.subrange(from as int, e as int),
            ),
            None => true,
        },
        forall|e: int|
            from <= e && ends_part(bytes@, e) && is_octet(
                #[trigger] bytes@.subrange(from as int, e),
            ) ==> r == Some(e as usize),
{
    let mut e: usize = from;
    while e < bytes.len() && e - from < 4 && 0x30 <= bytes[e] && bytes[e] <= 0x39
        invariant
            from <= e <= bytes@.len(),
            e - from <= 4,
            forall|j: int| from <= j < e ==> is_digit(#[trigger] bytes@[j]),
        decreases bytes@.len() - e,
    {
        e += 1;
    }
    let ghost s = bytes@;
    if e - from == 4 {
        assert forall|x: int|
            from <= x && ends_part(s, x) && is_octet(
                #[trigger] s.subrange(from as int, x),
            ) implies false by {
            let part = s.subrange(from as int, x);
            assert(x - from <= 3);
            assert(is_digit(s[x]));
        }
        return None;
    }
    assert(ends_part(s, e as int));
    assert forall|x: int|
        from <= x && ends_part(s, x) && is_octet(
            #[trigger] s.subrange(from as int, x),
        ) implies x == e by {
        let part = s.subrange(from as int, x);
        if x < e {
            assert(is_digit(s[x]));
        }
        if x > e {
            assert(part[e - from] == s[e as int]);
            assert(is_digit(part[e - from]));
        }
    }
    let ghost part = s.subrange(from as int, e as int);
    assert(all_digits(part)) by {
        assert forall|j: int| 0 <= j < part.len() implies is_digit(#[trigger] part[j]) by {
            assert(part[j] == s[from + j]);
        }
    }
    if e == from {
        return None;
    }
    if e - from > 1 && bytes[from] == 0x30 {
        assert(part[0] == s[from as int]);
        return None;
    }
    assert(e - from > 1 ==> part[0] != 0x30) by {
        if e - from > 1 {
            assert(part[0] == s[from as int]);
        }
    }
    if small_number(bytes, from, e) > 255 {
        return None;
    }
    Some(e)
}

/// Tells whether the byte at `at` is a dot.
fn dot_at(bytes: &[u8], at: usize) -> (b: bool)
    ensures
        b == (at < bytes@.len() && bytes@[at as int] == 0x2e),
{
    at < bytes.len() && bytes[at] == 0x2e
}

/// Tells whether a run of bytes is a dotted IPv4 address.
pub fn is_ipv4_address(bytes: &[u8]) -> (b: bool)
    ensures
        b == is_ipv4(bytes@),
{
    let ghost s = bytes@;
    let first = octet_end(bytes, 0);
    let a = match first {
        Some(a) => a,
        None => {
            assert forall|i: int, j: int, k: int| !is_dotted_at(s, i, j, k) by {
                if is_dotted_at(s, i, j, k) {
                    assert(ends_part(s, i));
                }
            }
            return false;
        },
    };
    if !dot_at(bytes, a) {
        assert forall|i: int, j: int, k: int| !is_dotted_at(s, i, j, k) by {
            if is_dotted_at(s, i, j, k) {
                assert(ends_part(s, i));
            }
        }
        return false;
    }
    let second = octet_end(bytes, a + 1);
    let b = match second {
        Some(b) => b,
        None => {
            assert forall|i: int, j: int, k: int| !is_dotted_at(s, i, j, k) by {
                if is_dotted_at(s, i, j, k) {
                    assert(ends_part(s, i));
                    assert(ends_part(s, j));
                }
            }
            return false;
        },
    };
    if !dot_at(bytes, b) {
        assert forall|i: int, j: int, k: int| !is_dotted_at(s, i, j, k) by {
            if is_dotted_at(s, i, j, k) {
                assert(ends_part(s, i));
                assert(ends_part(s, j));
            }
        }
        return false;
    }
    let third = octet_end(bytes, b + 1);
    let c = match third {
        Some(c) => c,
        None => {
            assert forall|i: int, j: int, k: int| !is_dotted_at(s, i, j, k) by {
                if is_dotted_at(s, i, j, k) {
                    assert(ends_part(s, i));
                    assert(ends_part(s, j));
                    assert(ends_part(s, k));
                }
            }
            return false;
        },
    };
    if !dot_at(bytes, c) {
        assert forall|i: int, j: int, k: int| !is_dotted_at(s, i, j, k) by {
            if is_dotted_at(s, i, j, k) {
                assert(ends_part(s, i));
                assert(ends_part(s, j));
                assert(ends_part(s, k));
            }
        }
        return false;
    }
    let fourth = octet_end(bytes, c + 1);
    let whole = match fourth {
        Some(d) => d == bytes.len(),
        None => false,
    };
    if !whole {
        assert forall|i: int, j: int, k: int| !is_dotted_at(s, i, j, k) by {
            if is_dotted_at(s, i, j, k) {
                assert(ends_part(s, i));
                assert(ends_part(s, j));
                assert(ends_part(s, k));
                assert(ends_part(s, s.len() as int));
            }
        }
        return false;
    }
    assert(is_dotted_at(s, a as int, b as int, c as int));
    true
}

/// Tells whether a text names a host that a worker may connect to.
pub fn is_valid_host(host: &[u8]) -> (b: bool)
    ensures
        b == is_host(host@),
{
    same_bytes(host, "localhost".as_bytes()) || is_ipv4_address(host)
}

/// Finds the colon of a text that has exactly one.
pub fn find_split(bytes: &[u8]) -> (r: Option<usize>)
    ensures
        match r {
            Some(i) => is_split_at(bytes@, i as int),
            None => forall|i: int| !is_split_at(bytes@, i),
        },
{
    let mut found: Option<usize> = None;
    let mut n: usize = 0;
    while n < bytes.len()
        invariant
            n <= bytes@.len(),
            match found {
                Some(i) => i < n && bytes@[i as int] == 0x3a && forall|j: int|
                    0 <= j < n && j != i ==> #[trigger] bytes@[j] != 0x3a,
                None => forall|j: int| 0 <= j < n ==> #[trigger] bytes@[j] != 0x3a,
            },
        decreases bytes@.len() - n,
    {
        if bytes[n] == 0x3a {
            match found {
                Some(i) => {
                    assert forall|x: int| !is_split_at(bytes@, x) by {
                        if is_split_at(bytes@, x) {
                            if x == i {
                                assert(bytes@[n as int] != 0x3a);
                            } else {
                                assert(bytes@[i as int] != 0x3a);
                            }
                        }
                    }
                    return None;
                },
                None => {
                    found = Some(n);
                },
            }
        }
        n += 1;
    }
    found
}

/// Reads the target of a connection, `<ip>:<port>`, and returns where its
/// colon stands: the address is what comes before, the port what comes
/// after. A text without a colon, or with several, has not the format; an
/// address that is neither `localhost` nor a dotted IPv4 address is
/// refused.
pub fn parse_target(target: &str) -> (r: Result<usize, ValidationError>)
    ensures
        match r {
            Ok(i) => is_split_at(target.spec_bytes(), i as int) && is_host(
                target.spec_bytes().subrange(0, i as int),
            ),
            Err(ValidationError::InvalidFormat) => forall|i: int|
                !is_split_at(target.spec_bytes(), i),
            Err(ValidationError::InvalidAddress) => exists|i: int|
                is_split_at(target.spec_bytes(), i) && !is_host(
                    target.spec_bytes().subrange(0, i),
                ),
            Err(_) => false,
        },
{
    let bytes = target.as_bytes();
    match find_split(bytes) {
        None => Err(ValidationError::InvalidFormat),
        Some(i) => {
            let host = crate::connexion::copy_range(bytes, 0, i);
            if is_valid_host(host.as_slice()) {
                Ok(i)
            } else {
                Err(ValidationError::InvalidAddress)
            }
        },
    }
}

/// A text has at most one place where it splits, so the answers of
/// `parse_target` exclude one another.
pub proof fn lemma_split_is_unique(s: Seq<u8>, i: int, j: int)
    requires
        is_split_at(s, i),
        is_split_at(s, j),
    ensures
        i == j,
{
}

/// What `start_worker` makes of an operator's answers: a workload that is no
/// 32-bit number is refused first, then a port that is no 16-bit number.
pub open spec fn start_failure(port: Seq<u8>, workload: Seq<u8>) -> Option<ValidationError> {
    if decimal_of(workload, u32::MAX as nat).is_none() {
        Some(ValidationError::InvalidWorkload)
    } else if decimal_of(port, u16::MAX as nat).is_none() {
        Some(ValidationError::InvalidPort)
    } else {
        None
    }
}

/// Prepares a run from an operator's answers: a worker for the given server,
/// not yet connected, and the request it will send, under the connection's
/// name and with the workload that the text spells. Nothing is prepared if
/// the workload or the port is no number.
pub fn start_worker(ip: &str, port: &str, connection_name: String, workload: &str) -> (r: Result<
    (Worker, FragmentRequest),
    ValidationError,
>)
    ensures
        match start_failure(port.spec_bytes(), workload.spec_bytes()) {
            Some(e) => r == Err::<(Worker, FragmentRequest), ValidationError>(e),
            None => r.is_ok() && {
                let (worker, request) = r.unwrap();
                &&& worker.server_address@ == ip@
                &&& worker.connection_name@ == connection_name@
                &&& Some(worker.default_port as nat) == decimal_of(
                    port.spec_bytes(),
                    u16::MAX as nat,
                )
                &&& !worker.kill_connection
                &&& worker.state == WorkerState::Disconnected
                &&& worker.failure.is_none()
                &&& request@.worker_name == connection_name@
                &&& Some(request@.maximal_work_load as nat) == decimal_of(
                    workload.spec_bytes(),
                    u32::MAX as nat,
                )
            },
        },
{
    let load = match parse_decimal(workload, 0xffff_ffff) {
        Some(n) => n,
        None => { return Err(ValidationError::InvalidWorkload); },
    };
    let port_number = match parse_decimal(port, 0xffff) {
        Some(n) => n,
        None => { return Err(ValidationError::InvalidPort); },
    };
    let worker = Worker::new(ip.to_owned(), connection_name.clone(), port_number as u16);
    match FragmentRequest::builder().with_worker_name(connection_name).with_max_work_load(
        load,
    ).build() {
        Ok(request) => Ok((worker, request)),
        Err(e) => Err(e),
    }
}

} // verus!
