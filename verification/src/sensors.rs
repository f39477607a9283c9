//! Reporting of the six input switches to the show-control PC: the text
//! line sent for a change, and which state counts as reported.

use vstd::prelude::*;

verus! {

/// Capacity of a switch report line.
pub const SWITCH_MESSAGE_CAP: usize = 32;

/// ASCII decimal digits of `n`.
pub open spec fn decimal_digits(n: nat) -> Seq<u8>
    decreases n,
{
    if n < 10 {
        seq![(48 + n) as u8]
    } else {
        decimal_digits(n / 10).push((48 + n % 10) as u8)
    }
}

/// ASCII decimal text of `n`, with a leading `-` when negative.
pub open spec fn decimal_text(n: int) -> Seq<u8> {
    if n < 0 {
        seq![45u8] + decimal_digits((-n) as nat)
    } else {
        decimal_digits(n as nat)
    }
}

/// The report line for switch `no` being in state `status`:
/// `SWITCH_<no>:<0|1>` and a newline.
pub open spec fn switch_line(no: int, status: bool) -> Seq<u8> {
    seq![83u8, 87, 73, 84, 67, 72, 95] + decimal_text(no) + seq![
        58u8,
        if status {
            49u8
        } else {
            48u8
        },
        10u8,
    ]
}

pub open spec fn pow10(k: nat) -> nat
    decreases k,
{
    if k == 0 {
        1
    } else {
        10 * pow10((k - 1) as nat)
    }
}

proof fn lemma_decimal_digits_len_bound(n: nat, k: nat)
    requires
        1 <= k,
        n < pow10(k),
    ensures
        1 <= decimal_digits(n).len() <= k,
    decreases k,
{
    if n >= 10 {
        assert(k >= 2) by {
            if k == 1 {
                assert(pow10(1) == 10) by {
                    reveal_with_fuel(pow10, 2);
                }
            }
        }
        lemma_decimal_digits_len_bound(n / 10, (k - 1) as nat);
    }
}

proof fn lemma_decimal_digits_len(n: nat)
    ensures
        1 <= decimal_digits(n).len(),
        n < 0x1_0000_0000 ==> decimal_digits(n).len() <= 10,
{
    assert(pow10(10) == 10_000_000_000) by {
        reveal_with_fuel(pow10, 11);
    }
    if n < 0x1_0000_0000 {
        lemma_decimal_digits_len_bound(n, 10);
    } else {
        assert(n < pow10(n + 1)) by {
            lemma_pow10_exceeds(n);
        }
        lemma_decimal_digits_len_bound(n, n + 1);
    }
}

proof fn lemma_pow10_exceeds(n: nat)
    ensures
        n < pow10(n + 1),
    decreases n,
{
    assert(pow10(n + 1) == 10 * pow10(n));
    if n > 0 {
        lemma_pow10_exceeds((n - 1) as nat);
        assert(pow10(((n - 1) as nat + 1) as nat) == pow10(n));
    }
}

/// A report line in a fixed buffer.
pub struct SwitchMessage {
    bytes: [u8; SWITCH_MESSAGE_CAP],
    len: usize,
}

impl View for SwitchMessage {
    type V = Seq<u8>;

    closed spec fn view(&self) -> Seq<u8> {
        self.bytes@.subrange(0, self.len as int)
    }
}

impl SwitchMessage {
    #[verifier::type_invariant]
    spec fn len_fits(&self) -> bool {
        self.len <= SWITCH_MESSAGE_CAP
    }

    /// The bytes of the line.
    pub fn as_bytes(&self) -> (s: &[u8])
        ensures
            s@ == self@,
    {
        proof {
            use_type_invariant(self);
        }
        &self.bytes.as_slice()[0..self.len]
    }

    fn push(&mut self, b: u8)
        requires
            old(self)@.len() < SWITCH_MESSAGE_CAP,
        ensures
            final(self)@ == old(self)@.push(b),
    {
        proof {
            use_type_invariant(&*self);
        }
        let len = self.len;
        let mut bytes = self.bytes;
        bytes[len] = b;
        self.bytes = bytes;
        self.len = len + 1;
        assert(self@ =~= old(self)@.push(b));
    }
}

/// Formats the report line for switch `no` in state `status`.
pub fn switch_message(no: i32, status: bool) -> (m: SwitchMessage)
    ensures
        m@ == switch_line(no as int, status),
{
    let mut m = SwitchMessage { bytes: [0u8; SWITCH_MESSAGE_CAP], len: 0 };
    assert(m@ =~= Seq::<u8>::empty());
    let prefix: [u8; 7] = [83, 87, 73, 84, 67, 72, 95];
    let mut i: usize = 0;
    while i < 7
        invariant
            i <= 7,
            m@ == prefix@.subrange(0, i as int),
        decreases 7 - i,
    {
        m.push(prefix[i]);
        assert(prefix@.subrange(0, i + 1) =~= prefix@.subrange(0, i as int).push(prefix[i as int]));
        i = i + 1;
    }
    assert(prefix@ =~= seq![83u8, 87, 73, 84, 67, 72, 95]);
    let ghost head = m@;
    // Magnitude of `no`, and its digits from the least significant one.
    let magnitude: u32 = if no < 0 {
        (-(no as i64)) as u32
    } else {
        no as u32
    };
    if no < 0 {
        m.push(45);
    }
    let ghost signed = m@;
    let mut digits = [0u8; 10];
    let mut count: usize = 0;
    let mut v = magnitude;
    proof {
        lemma_decimal_digits_len(magnitude as nat);
    }
    // Invariant: the digits of `magnitude` are those of `v` followed by the
    // stored digits, last one first.
    while v >= 10
        invariant
            count <= 9,
            decimal_digits(v as nat).len() + count <= 10,
            decimal_digits(magnitude as nat) == decimal_digits(v as nat) + Seq::new(
                count as nat,
                |k: int| digits[count - 1 - k],
            ),
        decreases v,
    {
        let d = (v % 10) as u8;
        digits[count] = 48 + d;
        proof {
            lemma_decimal_digits_len((v / 10) as nat);
            assert(decimal_digits(v as nat) == decimal_digits((v / 10) as nat).push((48 + v % 10) as u8));
        }
        let ghost old_count = count;
        count = count + 1;
        v = v / 10;
        assert(Seq::new(count as nat, |k: int| digits[count - 1 - k]) =~= seq![digits[old_count as int]] + Seq::new(
            old_count as nat,
            |k: int| digits[old_count - 1 - k],
        ));
        assert(decimal_digits(magnitude as nat) =~= decimal_digits(v as nat) + Seq::new(
            count as nat,
            |k: int| digits[count - 1 - k],
        ));
    }
    m.push(48 + v as u8);
    let mut k: usize = count;
    while k > 0
        invariant
            k <= count <= 9,
            m@ == signed + decimal_digits(v as nat) + Seq::new(
                (count - k) as nat,
                |j: int| digits[count - 1 - j],
            ),
            signed.len() <= 8,
            m@.len() == signed.len() + 1 + (count - k),
        decreases k,
    {
        k = k - 1;
        m.push(digits[k]);
        assert(Seq::new((count - k) as nat, |j: int| digits[count - 1 - j]) =~= Seq::new(
            (count - k - 1) as nat,
            |j: int| digits[count - 1 - j],
        ).push(digits[k as int]));
    }
    assert(m@ =~= head + decimal_text(no as int));
    m.push(58);
    m.push(
        if status {
            49
        } else {
            48
        },
    );
    m.push(10);
    assert(m@ =~= switch_line(no as int, status));
    m
}

/// The switch state that counts as reported after a check: a changed state
/// counts once its line was written; if the write failed the old state
/// stays, so the change is sent again on the next check.
pub fn confirmed_status(current: bool, last_sent: bool, write_ok: bool) -> (s: bool)
    ensures
        s == if current != last_sent && write_ok {
            current
        } else {
            last_sent
        },
{
    if current != last_sent && write_ok {
        current
    } else {
        last_sent
    }
}

/// The line to send for a switch, if its state changed since it was last
/// reported.
pub fn switch_update(no: i32, current: bool, last_sent: bool) -> (m: Option<SwitchMessage>)
    ensures
        m is Some <==> current != last_sent,
        m matches Some(msg) ==> msg@ == switch_line(no as int, current),
{
    if current != last_sent {
        Some(switch_message(no, current))
    } else {
        None
    }
}

} // verus!
