//! The idempotency key of a transfer: a digest of the shipment's identity.
//!
//! The receiving service treats two submissions with the same key as one
//! transfer, so the key is a function of the shipment's identity fields and of
//! the serial numbers in the order given, and of nothing else.

use crate::digest::{sha256, sha256_digest};
use crate::hex::{is_lower_hex, lemma_lower_hex_injective, lemma_lower_hex_shape, lower_hex, to_lower_hex};
use vstd::prelude::*;
use vstd::string::*;
use vstd::utf8::{encode_utf8, encode_utf8_decode_utf8};

verus! {

/// What identifies a transfer: six shipment fields and the serial numbers of
/// the items, in order.
pub struct TransferIdentity {
    pub shipment_date: Seq<char>,
    pub transferor: Seq<char>,
    pub transferee: Seq<char>,
    pub tracking_number: Seq<char>,
    pub po_number: Seq<char>,
    pub invoice_number: Seq<char>,
    pub serial_numbers: Seq<Seq<char>>,
}

/// The text of each string, in order.
pub open spec fn texts(strings: Seq<String>) -> Seq<Seq<char>> {
    Seq::new(strings.len(), |i: int| strings[i]@)
}

/// The identity that the arguments of [`generate_idempotency_key`] describe.
pub open spec fn identity_of(
    shipment_date: Seq<char>,
    transferor: Seq<char>,
    transferee: Seq<char>,
    tracking_number: Seq<char>,
    po_number: Seq<char>,
    invoice_number: Seq<char>,
    serial_numbers: Seq<String>,
) -> TransferIdentity {
    TransferIdentity {
        shipment_date,
        transferor,
        transferee,
        tracking_number,
        po_number,
        invoice_number,
        serial_numbers: texts(serial_numbers),
    }
}

/// A single line feed.
pub open spec fn line_feed() -> Seq<char> {
    seq!['\n']
}

/// The lines with one line feed between each two neighbours.
pub open spec fn join_lines(lines: Seq<Seq<char>>) -> Seq<char>
    decreases lines.len(),
{
    if lines.len() == 0 {
        Seq::empty()
    } else if lines.len() == 1 {
        lines[0]
    } else {
        join_lines(lines.drop_last()) + line_feed() + lines.last()
    }
}

/// The canonical text of an identity: each of the six fields followed by a
/// line feed, then the serial numbers joined by line feeds.
pub open spec fn canonical_text(id: TransferIdentity) -> Seq<char> {
    id.shipment_date + line_feed() + id.transferor + line_feed() + id.transferee + line_feed()
        + id.tracking_number + line_feed() + id.po_number + line_feed() + id.invoice_number
        + line_feed() + join_lines(id.serial_numbers)
}

/// The bytes that are hashed: the canonical text in UTF-8.
pub open spec fn canonical_bytes(id: TransferIdentity) -> Seq<u8> {
    encode_utf8(canonical_text(id))
}

/// The idempotency key: the SHA-256 digest of the canonical bytes, in
/// lowercase hexadecimal.
pub open spec fn idempotency_key(id: TransferIdentity) -> Seq<char> {
    lower_hex(sha256(canonical_bytes(id)))
}

/// Whether `text` has the shape of a key: 64 lowercase hexadecimal digits.
pub open spec fn is_key_text(text: Seq<char>) -> bool {
    &&& text.len() == 64
    &&& forall|i: int| 0 <= i < text.len() ==> is_lower_hex(#[trigger] text[i])
}

/// Whether `text` holds no line feed.
pub open spec fn newline_free(text: Seq<char>) -> bool {
    forall|i: int| 0 <= i < text.len() ==> text[i] != '\n'
}

/// Whether the canonical text can be read back: no field and no serial number
/// holds a line feed, and the serial numbers are not a single empty string
/// (which joins to the same text as no serial number at all).
pub open spec fn readable(id: TransferIdentity) -> bool {
    &&& newline_free(id.shipment_date)
    &&& newline_free(id.transferor)
    &&& newline_free(id.transferee)
    &&& newline_free(id.tracking_number)
    &&& newline_free(id.po_number)
    &&& newline_free(id.invoice_number)
    &&& readable_lines(id.serial_numbers)
}

/// Whether no line holds a line feed.
pub open spec fn newline_free_lines(lines: Seq<Seq<char>>) -> bool {
    forall|i: int| 0 <= i < lines.len() ==> newline_free(#[trigger] lines[i])
}

/// Whether joined lines can be split again: none holds a line feed, and they
/// are not a single empty line.
pub open spec fn readable_lines(lines: Seq<Seq<char>>) -> bool {
    &&& newline_free_lines(lines)
    &&& !(lines.len() == 1 && lines[0].len() == 0)
}

/// Joins the serial numbers with line feeds.
pub fn join_serials(serial_numbers: &[String]) -> (text: String)
    ensures
        text@ == join_lines(texts(serial_numbers@)),
{
    let mut text = String::new();
    let mut i: usize = 0;
    proof {
        reveal_strlit("\n");
    }
    while i < serial_numbers.len()
        invariant
            i <= serial_numbers.len(),
            "\n"@ == line_feed(),
            text@ == join_lines(texts(serial_numbers@).take(i as int)),
        decreases serial_numbers.len() - i,
    {
        if i > 0 {
            text.append("\n");
        }
        text.append(serial_numbers[i].as_str());
        proof {
            let all = texts(serial_numbers@);
            let next = all.take(i + 1);
            assert(next.drop_last() =~= all.take(i as int));
            if i == 0 {
                assert(text@ =~= next[0]);
            }
        }
        i += 1;
    }
    proof {
        assert(texts(serial_numbers@).take(i as int) =~= texts(serial_numbers@));
    }
    text
}

/// Builds the canonical text of a transfer's identity.
pub fn canonical_string(
    shipment_date: &str,
    transferor: &str,
    transferee: &str,
    tracking_number: &str,
    po_number: &str,
    invoice_number: &str,
    serial_numbers: &[String],
) -> (text: String)
    ensures
        text@ == canonical_text(
            identity_of(
                shipment_date@,
                transferor@,
                transferee@,
                tracking_number@,
                po_number@,
                invoice_number@,
                serial_numbers@,
            ),
        ),
{
    proof {
        reveal_strlit("\n");
    }
    let serials = join_serials(serial_numbers);
    let mut text = String::new();
    text.append(shipment_date);
    text.append("\n");
    text.append(transferor);
    text.append("\n");
    text.append(transferee);
    text.append("\n");
    text.append(tracking_number);
    text.append("\n");
    text.append(po_number);
    text.append("\n");
    text.append(invoice_number);
    text.append("\n");
    text.append(serials.as_str());
    text
}

/// Derives the idempotency key of a transfer.
///
/// The key is the same for the same arguments on every call; it has 64
/// characters, each a lowercase hexadecimal digit.
pub fn generate_idempotency_key(
    shipment_date: &str,
    transferor: &str,
    transferee: &str,
    tracking_number: &str,
    po_number: &str,
    invoice_number: &str,
    serial_numbers: &[String],
) -> (key: String)
    ensures
        key@ == idempotency_key(
            identity_of(
                shipment_date@,
                transferor@,
                transferee@,
                tracking_number@,
                po_number@,
                invoice_number@,
                serial_numbers@,
            ),
        ),
        is_key_text(key@),
{
    let data = canonical_string(
        shipment_date,
        transferor,
        transferee,
        tracking_number,
        po_number,
        invoice_number,
        serial_numbers,
    );
    let digest = sha256_digest(data.as_str().as_bytes());
    proof {
        lemma_lower_hex_shape(digest@);
    }
    to_lower_hex(digest.as_slice())
}

/// A text that starts with a line and a line feed determines both that line
/// and what follows.
pub proof fn lemma_first_line(head_a: Seq<char>, rest_a: Seq<char>, head_b: Seq<char>, rest_b: Seq<char>)
    requires
        newline_free(head_a),
        newline_free(head_b),
        head_a + line_feed() + rest_a == head_b + line_feed() + rest_b,
    ensures
        head_a == head_b,
        rest_a == rest_b,
{
    let text_a = head_a + line_feed() + rest_a;
    let text_b = head_b + line_feed() + rest_b;
    if head_a.len() < head_b.len() {
        assert(text_a[head_a.len() as int] == '\n');
        assert(text_b[head_a.len() as int] == head_b[head_a.len() as int]);
    }
    if head_b.len() < head_a.len() {
        assert(text_b[head_b.len() as int] == '\n');
        assert(text_a[head_b.len() as int] == head_a[head_b.len() as int]);
    }
    assert forall|i: int| 0 <= i < head_a.len() implies head_a[i] == head_b[i] by {
        assert(text_a[i] == head_a[i]);
        assert(text_b[i] == head_b[i]);
    }
    assert(head_a =~= head_b);
    assert(text_a.len() == text_b.len());
    assert forall|i: int| 0 <= i < rest_a.len() implies rest_a[i] == rest_b[i] by {
        assert(text_a[head_a.len() + 1 + i] == rest_a[i]);
        assert(text_b[head_b.len() + 1 + i] == rest_b[i]);
    }
    assert(rest_a =~= rest_b);
}

/// A text that ends with a line feed and a line determines both that line and
/// what comes before.
pub proof fn lemma_last_line(front_a: Seq<char>, last_a: Seq<char>, front_b: Seq<char>, last_b: Seq<char>)
    requires
        newline_free(last_a),
        newline_free(last_b),
        front_a + line_feed() + last_a == front_b + line_feed() + last_b,
    ensures
        front_a == front_b,
        last_a == last_b,
{
    let text_a = front_a + line_feed() + last_a;
    let text_b = front_b + line_feed() + last_b;
    assert(text_a.len() == text_b.len());
    if last_a.len() < last_b.len() {
        assert(text_a[front_a.len() as int] == '\n');
        assert(text_b[front_a.len() as int] == last_b[front_a.len() - front_b.len() - 1]);
    }
    if last_b.len() < last_a.len() {
        assert(text_b[front_b.len() as int] == '\n');
        assert(text_a[front_b.len() as int] == last_a[front_b.len() - front_a.len() - 1]);
    }
    assert forall|i: int| 0 <= i < front_a.len() implies front_a[i] == front_b[i] by {
        assert(text_a[i] == front_a[i]);
        assert(text_b[i] == front_b[i]);
    }
    assert(front_a =~= front_b);
    assert forall|i: int| 0 <= i < last_a.len() implies last_a[i] == last_b[i] by {
        assert(text_a[front_a.len() + 1 + i] == last_a[i]);
        assert(text_b[front_b.len() + 1 + i] == last_b[i]);
    }
    assert(last_a =~= last_b);
}

/// Readable lines can be told from their joined text.
pub proof fn lemma_join_lines_injective(a: Seq<Seq<char>>, b: Seq<Seq<char>>)
    requires
        readable_lines(a),
        readable_lines(b),
        join_lines(a) == join_lines(b),
    ensures
        a == b,
{
    if a.len() >= 1 && b.len() >= 1 {
        lemma_join_some_lines_injective(a, b);
    } else if a.len() >= 2 {
        lemma_joined_line_feed(a);
    } else if b.len() >= 2 {
        lemma_joined_line_feed(b);
    } else {
        assert(a =~= b);
    }
}

/// One or more lines without line feeds can be told from their joined text.
pub proof fn lemma_join_some_lines_injective(a: Seq<Seq<char>>, b: Seq<Seq<char>>)
    requires
        a.len() >= 1,
        b.len() >= 1,
        newline_free_lines(a),
        newline_free_lines(b),
        join_lines(a) == join_lines(b),
    ensures
        a == b,
    decreases a.len(),
{
    if a.len() >= 2 && b.len() >= 2 {
        assert(newline_free_lines(a.drop_last()));
        assert(newline_free_lines(b.drop_last()));
        lemma_last_line(join_lines(a.drop_last()), a.last(), join_lines(b.drop_last()), b.last());
        lemma_join_some_lines_injective(a.drop_last(), b.drop_last());
        assert(a =~= a.drop_last().push(a.last()));
        assert(b =~= b.drop_last().push(b.last()));
    } else if a.len() >= 2 {
        lemma_joined_line_feed(a);
    } else if b.len() >= 2 {
        lemma_joined_line_feed(b);
    } else {
        assert(a =~= b);
    }
}

/// Two or more joined lines hold a line feed.
pub proof fn lemma_joined_line_feed(lines: Seq<Seq<char>>)
    requires
        lines.len() >= 2,
    ensures
        !newline_free(join_lines(lines)),
        join_lines(lines).len() >= 1,
{
    let front = join_lines(lines.drop_last());
    assert(join_lines(lines)[front.len() as int] == '\n');
}

/// Readable identities can be told from their canonical text.
pub proof fn lemma_canonical_text_injective(a: TransferIdentity, b: TransferIdentity)
    requires
        readable(a),
        readable(b),
        canonical_text(a) == canonical_text(b),
    ensures
        a == b,
{
    let nl = line_feed();
    let a5 = a.invoice_number + nl + join_lines(a.serial_numbers);
    let a4 = a.po_number + nl + a5;
    let a3 = a.tracking_number + nl + a4;
    let a2 = a.transferee + nl + a3;
    let a1 = a.transferor + nl + a2;
    let b5 = b.invoice_number + nl + join_lines(b.serial_numbers);
    let b4 = b.po_number + nl + b5;
    let b3 = b.tracking_number + nl + b4;
    let b2 = b.transferee + nl + b3;
    let b1 = b.transferor + nl + b2;
    assert(canonical_text(a) =~= a.shipment_date + nl + a1);
    assert(canonical_text(b) =~= b.shipment_date + nl + b1);
    lemma_first_line(a.shipment_date, a1, b.shipment_date, b1);
    lemma_first_line(a.transferor, a2, b.transferor, b2);
    lemma_first_line(a.transferee, a3, b.transferee, b3);
    lemma_first_line(a.tracking_number, a4, b.tracking_number, b4);
    lemma_first_line(a.po_number, a5, b.po_number, b5);
    lemma_first_line(
        a.invoice_number,
        join_lines(a.serial_numbers),
        b.invoice_number,
        join_lines(b.serial_numbers),
    );
    lemma_join_lines_injective(a.serial_numbers, b.serial_numbers);
}

/// Two identities with the same key have the same canonical text, or their
/// canonical bytes are two different inputs on which SHA-256 agrees.
pub proof fn lemma_equal_keys(a: TransferIdentity, b: TransferIdentity)
    requires
        idempotency_key(a) == idempotency_key(b),
    ensures
        sha256(canonical_bytes(a)) == sha256(canonical_bytes(b)),
        canonical_text(a) != canonical_text(b) ==> canonical_bytes(a) != canonical_bytes(b),
{
    lemma_lower_hex_injective(sha256(canonical_bytes(a)), sha256(canonical_bytes(b)));
    encode_utf8_decode_utf8(canonical_text(a));
    encode_utf8_decode_utf8(canonical_text(b));
}

/// Changing any field of a readable identity, or the order of its serial
/// numbers, changes the key, unless SHA-256 agrees on the two different
/// canonical byte strings.
pub proof fn lemma_changed_identity_changes_key(a: TransferIdentity, b: TransferIdentity)
    requires
        readable(a),
        readable(b),
        a != b,
    ensures
        canonical_bytes(a) != canonical_bytes(b),
        idempotency_key(a) == idempotency_key(b) <==> sha256(canonical_bytes(a)) == sha256(
            canonical_bytes(b),
        ),
{
    if canonical_text(a) == canonical_text(b) {
        lemma_canonical_text_injective(a, b);
    }
    encode_utf8_decode_utf8(canonical_text(a));
    encode_utf8_decode_utf8(canonical_text(b));
    if idempotency_key(a) == idempotency_key(b) {
        lemma_equal_keys(a, b);
    }
}

} // verus!
