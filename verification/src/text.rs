//! The text of a request: where it gives a string for `data`, and the form of it in which the reader
//! of requests is handed it.
//!
//! The reader cuts the `data` of a request behind its second byte, to see whether it begins with
//! `0x`, and panics where the cut falls within a character. Whatever does not begin with `0x` is
//! refused. With two question marks in front it is refused all the same, and the cut falls behind
//! these. Strings that belong to no field of a request are passed over, with question marks as
//! without.
use vstd::prelude::*;

verus! {

/// A space.
pub const SPACE: u8 = 0x20;

/// A line feed.
pub const NEWLINE: u8 = 0x0a;

/// A tab.
pub const TAB: u8 = 0x09;

/// A carriage return.
pub const RETURN: u8 = 0x0d;

/// A quotation mark.
pub const QUOTE: u8 = 0x22;

/// A comma.
pub const COMMA: u8 = 0x2c;

/// The digit `0`.
pub const DIGIT_0: u8 = 0x30;

/// A colon.
pub const COLON: u8 = 0x3a;

/// A question mark.
pub const MARK: u8 = 0x3f;

/// A backslash.
pub const BACKSLASH: u8 = 0x5c;

/// The letter `a`.
pub const LETTER_A: u8 = 0x61;

/// The letter `d`.
pub const LETTER_D: u8 = 0x64;

/// The letter `t`.
pub const LETTER_T: u8 = 0x74;

/// The letter `u`.
pub const LETTER_U: u8 = 0x75;

/// The letter `x`.
pub const LETTER_X: u8 = 0x78;

/// An opening brace.
pub const BRACE: u8 = 0x7b;

/// Whether `b` is white space between the parts of a text.
pub open spec fn is_space(b: u8) -> bool {
    b == SPACE || b == NEWLINE || b == TAB || b == RETURN
}

/// The last position before `at` at which the text `tx` has no white space; negative where there
/// is none.
pub open spec fn last_before(tx: Seq<u8>, at: int) -> int
    decreases at,
{
    if at <= 0 {
        -1
    } else if is_space(tx[at - 1]) {
        last_before(tx, at - 1)
    } else {
        at - 1
    }
}

/// Whether, at position `at` of the text `tx`, there stands the escape of `letter`:
/// `\u00` and the two hexadecimal digits of its number. The digits of the letters in question are
/// all below ten.
pub open spec fn is_escape(tx: Seq<u8>, at: int, letter: u8) -> bool {
    &&& 0 <= at && at + 5 < tx.len()
    &&& tx[at] == BACKSLASH && tx[at + 1] == LETTER_U && tx[at + 2] == DIGIT_0 && tx[at + 3] == DIGIT_0
    &&& tx[at + 4] == DIGIT_0 + letter / 16 && tx[at + 5] == DIGIT_0 + letter % 16
}

/// Where the character that ends before position `at` of the text `tx` begins, if it is `letter`,
/// written as itself or as its escape; else negative.
pub open spec fn start_of(tx: Seq<u8>, at: int, letter: u8) -> int {
    if at >= 1 && tx[at - 1] == letter {
        at - 1
    } else if is_escape(tx, at - 6, letter) {
        at - 6
    } else {
        -1
    }
}

/// Where the character that begins at position `at` of the text `tx` ends, if it is `letter`,
/// written as itself or as its escape; else negative.
pub open spec fn end_of(tx: Seq<u8>, at: int, letter: u8) -> int {
    if 0 <= at < tx.len() && tx[at] == letter {
        at + 1
    } else if is_escape(tx, at, letter) {
        at + 6
    } else {
        -1
    }
}

/// Whether the quotation mark at position `mark` of the text `tx` closes the key `data` of an
/// object: the letters of `data` stand before it, a quotation mark before these, and a brace or a
/// comma before that.
pub open spec fn closes_data(tx: Seq<u8>, mark: int) -> bool {
    let last_a = start_of(tx, mark, LETTER_A);
    let t = start_of(tx, last_a, LETTER_T);
    let first_a = start_of(tx, t, LETTER_A);
    let d = start_of(tx, first_a, LETTER_D);
    let before = last_before(tx, d - 1);
    &&& d >= 1 && tx[d - 1] == QUOTE
    &&& before >= 0 && (tx[before] == BRACE || tx[before] == COMMA)
}

/// Whether the byte at position `at` of the text `tx` is a quotation mark that opens a string for a
/// key `data`: it follows a colon, and the colon follows the key.
pub open spec fn opens_data(tx: Seq<u8>, at: int) -> bool {
    let colon = last_before(tx, at);
    let mark = last_before(tx, colon);
    &&& tx[at] == QUOTE
    &&& colon >= 0 && tx[colon] == COLON
    &&& mark >= 0 && tx[mark] == QUOTE
    &&& closes_data(tx, mark)
}

/// Whether what begins at position `at` of the text `tx` reads `0x`.
pub open spec fn begins_0x(tx: Seq<u8>, at: int) -> bool {
    end_of(tx, end_of(tx, at, DIGIT_0), LETTER_X) >= 0
}

/// Whether two question marks stand at position `at` of the text `tx`.
pub open spec fn begins_marked(tx: Seq<u8>, at: int) -> bool {
    at + 1 < tx.len() && tx[at] == MARK && tx[at + 1] == MARK
}

/// Whether every string that the text `tx` gives for a key `data` begins with `0x` or with two
/// question marks.
pub open spec fn is_readable(tx: Seq<u8>) -> bool {
    forall|i: int|
        0 <= i < tx.len() && #[trigger] opens_data(tx, i) ==> begins_0x(tx, i + 1)
            || begins_marked(tx, i + 1)
}

/// Whether two question marks are to be put behind position `at` of the text `tx`: whether a string
/// for a key `data` that does not begin with `0x` is opened there.
pub open spec fn is_marked(tx: Seq<u8>, at: int) -> bool {
    opens_data(tx, at) && !begins_0x(tx, at + 1)
}

/// The first `n` bytes of the text `tx`, with the question marks that are to be put behind them.
pub open spec fn marked_below(tx: Seq<u8>, n: int) -> Seq<u8>
    decreases n,
{
    if n <= 0 {
        Seq::empty()
    } else {
        let before = marked_below(tx, n - 1).push(tx[n - 1]);
        if is_marked(tx, n - 1) {
            before.push(MARK).push(MARK)
        } else {
            before
        }
    }
}

/// The text `tx` with two question marks in front of every string for a key `data` that does not
/// begin with `0x`, and else as it is.
pub open spec fn marked(tx: Seq<u8>) -> Seq<u8> {
    marked_below(tx, tx.len() as int)
}

/// Where the byte at position `k` of the text `tx` stands once the question marks are put in.
spec fn place(tx: Seq<u8>, k: int) -> int {
    marked_below(tx, k).len() as int
}

proof fn lemma_bytes_keep_their_order(tx: Seq<u8>, n: int, m: int)
    requires
        0 <= n <= m,
    ensures
        place(tx, n) <= place(tx, m),
        forall|j: int|
            0 <= j < place(tx, n) ==> #[trigger] marked_below(tx, m)[j] == marked_below(tx, n)[j],
    decreases m,
{
    if n < m {
        lemma_bytes_keep_their_order(tx, n, m - 1);
    }
}

proof fn lemma_byte_is_kept(tx: Seq<u8>, k: int)
    requires
        0 <= k < tx.len(),
    ensures
        0 <= place(tx, k) < marked(tx).len(),
        marked(tx)[place(tx, k)] == tx[k],
        place(tx, k + 1) <= marked(tx).len(),
        is_marked(tx, k) ==> place(tx, k + 1) == place(tx, k) + 3 && marked(tx)[place(tx, k) + 1]
            == MARK && marked(tx)[place(tx, k) + 2] == MARK,
        !is_marked(tx, k) ==> place(tx, k + 1) == place(tx, k) + 1,
{
    lemma_bytes_keep_their_order(tx, k + 1, tx.len() as int);
    let after = marked_below(tx, k + 1);
    assert(after[place(tx, k)] == tx[k]);
    if is_marked(tx, k) {
        assert(after[place(tx, k) + 1] == MARK);
        assert(after[place(tx, k) + 2] == MARK);
    }
}

/// Whatever stands before a byte, and is no question mark, stood before it.
proof fn lemma_step_back(tx: Seq<u8>, k: int)
    requires
        0 <= k <= tx.len(),
        place(tx, k) >= 1,
        marked(tx)[place(tx, k) - 1] != MARK,
    ensures
        k >= 1,
        place(tx, k - 1) == place(tx, k) - 1,
        marked(tx)[place(tx, k) - 1] == tx[k - 1],
{
    lemma_byte_is_kept(tx, k - 1);
}

proof fn lemma_source(tx: Seq<u8>, n: int, j: int) -> (k: int)
    requires
        0 <= n <= tx.len(),
        0 <= j < place(tx, n),
        marked_below(tx, n)[j] != MARK,
    ensures
        0 <= k < n,
        place(tx, k) == j,
    decreases n,
{
    if j < place(tx, n - 1) {
        lemma_source(tx, n - 1, j)
    } else {
        n - 1
    }
}

proof fn lemma_last_before(tx: Seq<u8>, k: int)
    requires
        0 <= k <= tx.len(),
    ensures
        ({
            let p = last_before(marked(tx), place(tx, k));
            let q = last_before(tx, k);
            p >= 0 && marked(tx)[p] != MARK ==> 0 <= q < k && p == place(tx, q)
                && marked(tx)[p] == tx[q]
        }),
    decreases k,
{
    if k > 0 {
        lemma_byte_is_kept(tx, k - 1);
        if marked(tx)[place(tx, k) - 1] != MARK {
            lemma_step_back(tx, k);
            lemma_last_before(tx, k - 1);
        }
    }
}

proof fn lemma_start_of(tx: Seq<u8>, k: int, letter: u8)
    requires
        0 <= k <= tx.len(),
        letter == LETTER_A || letter == LETTER_D || letter == LETTER_T,
    ensures
        ({
            let p = start_of(marked(tx), place(tx, k), letter);
            let q = start_of(tx, k, letter);
            p >= 0 ==> 0 <= q < k && p == place(tx, q)
        }),
{
    let out = marked(tx);
    let p = start_of(out, place(tx, k), letter);
    if p >= 0 {
        lemma_step_back(tx, k);
        if out[place(tx, k) - 1] != letter {
            lemma_step_back(tx, k - 1);
            lemma_step_back(tx, k - 2);
            lemma_step_back(tx, k - 3);
            lemma_step_back(tx, k - 4);
            lemma_step_back(tx, k - 5);
            assert(is_escape(tx, k - 6, letter));
        }
    }
}

/// A string that is opened for a key `data` was opened for it before.
proof fn lemma_opens_data(tx: Seq<u8>, i: int)
    requires
        0 <= i < tx.len(),
        opens_data(marked(tx), place(tx, i)),
    ensures
        opens_data(tx, i),
{
    lemma_byte_is_kept(tx, i);
    lemma_last_before(tx, i);
    let colon = last_before(tx, i);
    lemma_last_before(tx, colon);
    let mark = last_before(tx, colon);
    lemma_start_of(tx, mark, LETTER_A);
    let last_a = start_of(tx, mark, LETTER_A);
    lemma_start_of(tx, last_a, LETTER_T);
    let t = start_of(tx, last_a, LETTER_T);
    lemma_start_of(tx, t, LETTER_A);
    let first_a = start_of(tx, t, LETTER_A);
    lemma_start_of(tx, first_a, LETTER_D);
    let d = start_of(tx, first_a, LETTER_D);
    lemma_step_back(tx, d);
    lemma_last_before(tx, d - 1);
}

proof fn lemma_end_of(tx: Seq<u8>, k: int, letter: u8)
    requires
        0 <= k <= tx.len(),
        letter == DIGIT_0 || letter == LETTER_X,
        end_of(tx, k, letter) >= 0,
    ensures
        end_of(tx, k, letter) <= tx.len(),
        end_of(marked(tx), place(tx, k), letter) == place(tx, end_of(tx, k, letter)),
{
    lemma_byte_is_kept(tx, k);
    if tx[k] != letter {
        lemma_byte_is_kept(tx, k + 1);
        lemma_byte_is_kept(tx, k + 2);
        lemma_byte_is_kept(tx, k + 3);
        lemma_byte_is_kept(tx, k + 4);
        lemma_byte_is_kept(tx, k + 5);
        assert(is_escape(marked(tx), place(tx, k), letter));
    }
}

proof fn lemma_marked_is_readable(tx: Seq<u8>)
    ensures
        is_readable(marked(tx)),
{
    let out = marked(tx);
    assert forall|j: int| 0 <= j < out.len() && #[trigger] opens_data(out, j) implies begins_0x(
        out,
        j + 1,
    ) || begins_marked(out, j + 1) by {
        let i = lemma_source(tx, tx.len() as int, j);
        lemma_opens_data(tx, i);
        lemma_byte_is_kept(tx, i);
        if !is_marked(tx, i) {
            lemma_end_of(tx, i + 1, DIGIT_0);
            lemma_end_of(tx, end_of(tx, i + 1, DIGIT_0), LETTER_X);
        }
    }
}

/// Computes [`last_before`].
fn find_last_before(tx: &Vec<u8>, at: usize) -> (r: Option<usize>)
    requires
        at <= tx@.len(),
    ensures
        match r {
            Some(k) => k < at && last_before(tx@, at as int) == k,
            None => last_before(tx@, at as int) == -1,
        },
{
    let mut k: usize = at;
    while k > 0
        invariant
            k <= at <= tx@.len(),
            last_before(tx@, k as int) == last_before(tx@, at as int),
        decreases k,
    {
        let b: u8 = tx[k - 1];
        if !(b == SPACE || b == NEWLINE || b == TAB || b == RETURN) {
            return Some(k - 1);
        }
        k = k - 1;
    }
    None
}

/// Computes [`is_escape`].
fn check_escape(tx: &Vec<u8>, at: usize, letter: u8) -> (r: bool)
    requires
        at <= tx@.len(),
    ensures
        r == is_escape(tx@, at as int, letter),
{
    tx.len() - at > 5 && tx[at] == BACKSLASH && tx[at + 1] == LETTER_U && tx[at + 2] == DIGIT_0
        && tx[at + 3] == DIGIT_0 && tx[at + 4] == DIGIT_0 + letter / 16 && tx[at + 5] == DIGIT_0
        + letter % 16
}

/// Computes [`start_of`].
fn find_start_of(tx: &Vec<u8>, at: usize, letter: u8) -> (r: Option<usize>)
    requires
        at <= tx@.len(),
    ensures
        match r {
            Some(k) => k < at && start_of(tx@, at as int, letter) == k,
            None => start_of(tx@, at as int, letter) == -1,
        },
{
    if at >= 1 && tx[at - 1] == letter {
        Some(at - 1)
    } else if at >= 6 && check_escape(tx, at - 6, letter) {
        Some(at - 6)
    } else {
        None
    }
}

/// Computes [`end_of`].
fn find_end_of(tx: &Vec<u8>, at: usize, letter: u8) -> (r: Option<usize>)
    requires
        at <= tx@.len(),
    ensures
        match r {
            Some(k) => k <= tx@.len() && end_of(tx@, at as int, letter) == k,
            None => end_of(tx@, at as int, letter) == -1,
        },
{
    if at < tx.len() && tx[at] == letter {
        Some(at + 1)
    } else if check_escape(tx, at, letter) {
        Some(at + 6)
    } else {
        None
    }
}

/// Where the key `data` begins whose last letter ends before position `mark` of the text, if it
/// stands there.
fn find_data(tx: &Vec<u8>, mark: usize) -> (r: Option<usize>)
    requires
        mark <= tx@.len(),
    ensures
        ({
            let last_a = start_of(tx@, mark as int, LETTER_A);
            let first_a = start_of(tx@, start_of(tx@, last_a, LETTER_T), LETTER_A);
            match r {
                Some(d) => d < mark && start_of(tx@, first_a, LETTER_D) == d,
                None => start_of(tx@, first_a, LETTER_D) == -1,
            }
        }),
{
    let last_a: usize = find_start_of(tx, mark, LETTER_A)?;
    let t: usize = find_start_of(tx, last_a, LETTER_T)?;
    let first_a: usize = find_start_of(tx, t, LETTER_A)?;
    find_start_of(tx, first_a, LETTER_D)
}

/// Computes [`closes_data`].
fn check_closes_data(tx: &Vec<u8>, mark: usize) -> (r: bool)
    requires
        mark <= tx@.len(),
    ensures
        r == closes_data(tx@, mark as int),
{
    match find_data(tx, mark) {
        Some(d) => d >= 1 && tx[d - 1] == QUOTE && match find_last_before(tx, d - 1) {
            Some(before) => tx[before] == BRACE || tx[before] == COMMA,
            None => false,
        },
        None => false,
    }
}

/// Computes [`opens_data`].
fn check_opens_data(tx: &Vec<u8>, at: usize) -> (r: bool)
    requires
        at < tx@.len(),
    ensures
        r == opens_data(tx@, at as int),
{
    tx[at] == QUOTE && match find_last_before(tx, at) {
        Some(colon) => tx[colon] == COLON && match find_last_before(tx, colon) {
            Some(mark) => tx[mark] == QUOTE && check_closes_data(tx, mark),
            None => false,
        },
        None => false,
    }
}

/// Computes [`begins_0x`].
fn check_begins_0x(tx: &Vec<u8>, at: usize) -> (r: bool)
    requires
        at <= tx@.len(),
    ensures
        r == begins_0x(tx@, at as int),
{
    match find_end_of(tx, at, DIGIT_0) {
        Some(x) => find_end_of(tx, x, LETTER_X).is_some(),
        None => false,
    }
}

/// Puts two question marks in front of every string for a key `data` that does not begin with
/// `0x`.
pub fn mark(tx: &Vec<u8>) -> (r: Vec<u8>)
    ensures
        r@ == marked(tx@),
        is_readable(r@),
{
    let mut r: Vec<u8> = Vec::new();
    let mut i: usize = 0;
    while i < tx.len()
        invariant
            i <= tx@.len(),
            r@ == marked_below(tx@, i as int),
        decreases tx@.len() - i,
    {
        r.push(tx[i]);
        if check_opens_data(tx, i) && !check_begins_0x(tx, i + 1) {
            r.push(MARK);
            r.push(MARK);
        }
        i = i + 1;
    }
    proof {
        lemma_marked_is_readable(tx@);
    }
    r
}

/// Whether there is nothing but white space from position `from` of the text `tx` up to `to`.
pub open spec fn is_blank(tx: Seq<u8>, from: int, to: int) -> bool {
    &&& 0 <= from <= to <= tx.len()
    &&& forall|j: int|
        from <= j < to ==> #[trigger] tx[j] == 0x20 || tx[j] == 0x0a || tx[j] == 0x09 || tx[j]
            == 0x0d
}

/// Whether the text `tx` has, from position `from` up to `to`, the given byte, or else a backslash,
/// the letter `u`, two zeros and the digits `high` and `low`.
pub open spec fn is_written(
    tx: Seq<u8>,
    from: int,
    to: int,
    byte: u8,
    high: u8,
    low: u8,
) -> bool {
    &&& 0 <= from && to <= tx.len()
    &&& {
        ||| to == from + 1 && tx[from] == byte
        ||| to == from + 6 && tx.subrange(from, to) == seq![
            0x5cu8,
            0x75u8,
            0x30u8,
            0x30u8,
            high,
            low,
        ]
    }
}

/// Whether the text `tx` has, from position `from` up to `to`, the word `data`, with the positions
/// `x`, `y` and `z` between its letters.
pub open spec fn is_data(tx: Seq<u8>, from: int, x: int, y: int, z: int, to: int) -> bool {
    &&& is_written(tx, from, x, 0x64, 0x36, 0x34)
    &&& is_written(tx, x, y, 0x61, 0x36, 0x31)
    &&& is_written(tx, y, z, 0x74, 0x37, 0x34)
    &&& is_written(tx, z, to, 0x61, 0x36, 0x31)
}

/// Whether the text `tx` has, up to position `at`, a brace or a comma at `first`, then the key
/// `data` between quotation marks at `open` and `close`, then a colon at `colon`, and then a
/// quotation mark at `at`, with nothing but white space between these.
pub open spec fn is_given(
    tx: Seq<u8>,
    first: int,
    open: int,
    x: int,
    y: int,
    z: int,
    close: int,
    colon: int,
    at: int,
) -> bool {
    &&& 0 <= first < open < close < colon < at < tx.len()
    &&& tx[first] == 0x7b || tx[first] == 0x2c
    &&& is_blank(tx, first + 1, open)
    &&& tx[open] == 0x22
    &&& is_data(tx, open + 1, x, y, z, close)
    &&& tx[close] == 0x22
    &&& is_blank(tx, close + 1, colon)
    &&& tx[colon] == 0x3a
    &&& is_blank(tx, colon + 1, at)
    &&& tx[at] == 0x22
}

proof fn lemma_blank_before(tx: Seq<u8>, at: int)
    requires
        0 <= at <= tx.len(),
        last_before(tx, at) >= 0,
    ensures
        last_before(tx, at) < at,
        is_blank(tx, last_before(tx, at) + 1, at),
    decreases at,
{
    if is_space(tx[at - 1]) {
        lemma_blank_before(tx, at - 1);
    }
}

proof fn lemma_last_before_blank(tx: Seq<u8>, k: int, at: int)
    requires
        0 <= k < at,
        is_blank(tx, k + 1, at),
        !is_space(tx[k]),
    ensures
        last_before(tx, at) == k,
    decreases at,
{
    if k + 1 < at {
        assert(is_space(tx[at - 1]));
        lemma_last_before_blank(tx, k, at - 1);
    }
}

proof fn lemma_written(tx: Seq<u8>, from: int, to: int, letter: u8)
    requires
        0 <= to <= tx.len(),
        letter == LETTER_A || letter == LETTER_D || letter == LETTER_T,
    ensures
        from >= 0 ==> (start_of(tx, to, letter) == from <==> is_written(
            tx,
            from,
            to,
            letter,
            (DIGIT_0 + letter / 16) as u8,
            (DIGIT_0 + letter % 16) as u8,
        )),
{
    let s = tx.subrange(from, to);
    let e = seq![
        0x5cu8,
        0x75u8,
        0x30u8,
        0x30u8,
        (DIGIT_0 + letter / 16) as u8,
        (DIGIT_0 + letter % 16) as u8,
    ];
    if from >= 0 && to == from + 6 {
        if is_escape(tx, from, letter) {
            assert(s =~= e);
        }
        if s == e {
            assert(s[0] == tx[from] && s[1] == tx[from + 1] && s[2] == tx[from + 2] && s[3]
                == tx[from + 3] && s[4] == tx[from + 4] && s[5] == tx[from + 5]);
        }
    }
}

/// A quotation mark opens a string for a key `data` if and only if the key stands before it: a brace
/// or a comma, the word `data` in quotation marks, each letter of it as itself or as its escape, and
/// a colon, with nothing but white space between these.
pub proof fn law_data_is_opened_where_it_is_given(tx: Seq<u8>, at: int)
    requires
        0 <= at < tx.len(),
    ensures
        opens_data(tx, at) <==> exists|
            first: int,
            open: int,
            x: int,
            y: int,
            z: int,
            close: int,
            colon: int,
        | #[trigger] is_given(tx, first, open, x, y, z, close, colon, at),
{
    if opens_data(tx, at) {
        let colon = last_before(tx, at);
        lemma_blank_before(tx, at);
        let close = last_before(tx, colon);
        lemma_blank_before(tx, colon);
        let z = start_of(tx, close, LETTER_A);
        let y = start_of(tx, z, LETTER_T);
        let x = start_of(tx, y, LETTER_A);
        let d = start_of(tx, x, LETTER_D);
        lemma_written(tx, z, close, LETTER_A);
        lemma_written(tx, y, z, LETTER_T);
        lemma_written(tx, x, y, LETTER_A);
        lemma_written(tx, d, x, LETTER_D);
        let first = last_before(tx, d - 1);
        lemma_blank_before(tx, d - 1);
        assert(is_given(tx, first, d - 1, x, y, z, close, colon, at));
    }
    assert forall|first: int, open: int, x: int, y: int, z: int, close: int, colon: int| #[trigger]
        is_given(tx, first, open, x, y, z, close, colon, at) implies opens_data(tx, at) by {
        lemma_last_before_blank(tx, colon, at);
        lemma_last_before_blank(tx, close, colon);
        lemma_written(tx, z, close, LETTER_A);
        lemma_written(tx, y, z, LETTER_T);
        lemma_written(tx, x, y, LETTER_A);
        lemma_written(tx, open + 1, x, LETTER_D);
        lemma_last_before_blank(tx, first, open);
    }
}

/// What begins at a position reads `0x` if and only if a zero and the letter `x` stand there, each
/// as itself or as its escape.
pub proof fn law_numbers_begin_as_written(tx: Seq<u8>, at: int)
    requires
        0 <= at,
    ensures
        begins_0x(tx, at) <==> exists|x: int, end: int| #[trigger]
            is_written(tx, at, x, 0x30, 0x33, 0x30) && #[trigger] is_written(
                tx,
                x,
                end,
                0x78,
                0x37,
                0x38,
            ),
{
    lemma_reads(tx, at, DIGIT_0, 0x33, 0x30);
    let x = end_of(tx, at, DIGIT_0);
    if x >= 0 {
        lemma_reads(tx, x, LETTER_X, 0x37, 0x38);
        if begins_0x(tx, at) {
            let end = end_of(tx, x, LETTER_X);
            assert(is_written(tx, at, x, 0x30, 0x33, 0x30) && is_written(
                tx,
                x,
                end,
                0x78,
                0x37,
                0x38,
            ));
        }
    }
}

proof fn lemma_reads(tx: Seq<u8>, from: int, letter: u8, high: u8, low: u8)
    requires
        0 <= from,
        letter == DIGIT_0 || letter == LETTER_X,
        high == DIGIT_0 + letter / 16,
        low == DIGIT_0 + letter % 16,
    ensures
        forall|to: int| #[trigger]
            is_written(tx, from, to, letter, high, low) <==> end_of(tx, from, letter) == to && to
                >= 0,
{
    let e = seq![0x5cu8, 0x75u8, 0x30u8, 0x30u8, high, low];
    assert forall|to: int| #[trigger]
        is_written(tx, from, to, letter, high, low) <==> end_of(tx, from, letter) == to && to
            >= 0 by {
        let s = tx.subrange(from, to);
        if to == from + 6 && to <= tx.len() {
            if is_escape(tx, from, letter) {
                assert(s =~= e);
            }
            if s == e {
                assert(s[0] == tx[from] && s[1] == tx[from + 1] && s[2] == tx[from + 2] && s[3]
                    == tx[from + 3] && s[4] == tx[from + 4] && s[5] == tx[from + 5]);
            }
        }
    }
}

/// A text is readable if and only if each string that is opened for a key `data` begins with `0x`
/// or with two question marks.
pub proof fn law_readable_texts_begin_data_well(tx: Seq<u8>)
    ensures
        is_readable(tx) <==> forall|i: int|
            0 <= i < tx.len() && #[trigger] opens_data(tx, i) && !begins_0x(tx, i + 1) ==> i + 2
                < tx.len() && tx[i + 1] == 0x3f && tx[i + 2] == 0x3f,
{
}

/// Whether the text `out` is the text `tx` with more in between: `places` says where each byte of
/// `tx` stands in `out`, and last where `out` ends. Two question marks follow the byte at each
/// position that opens a string for a key `data` which does not begin with `0x`, and nothing follows
/// any other.
pub open spec fn is_placed(tx: Seq<u8>, out: Seq<u8>, places: Seq<int>) -> bool {
    &&& places.len() == tx.len() + 1
    &&& places[0] == 0
    &&& places[tx.len() as int] == out.len()
    &&& forall|k: int|
        0 <= k < tx.len() ==> {
            let at = #[trigger] places[k];
            &&& 0 <= at < out.len()
            &&& out[at] == tx[k]
            &&& if opens_data(tx, k) && !begins_0x(tx, k + 1) {
                &&& places[k + 1] == at + 3
                &&& at + 2 < out.len()
                &&& out[at + 1] == 0x3f
                &&& out[at + 2] == 0x3f
            } else {
                places[k + 1] == at + 1
            }
        }
}

/// The text that the reader is handed is the text of the request, byte by byte and in the same
/// order, with two question marks in front of each string for a key `data` that does not begin with
/// `0x`, and with nothing else added.
pub proof fn law_marked_text_is_the_text_with_marks(tx: Seq<u8>)
    ensures
        exists|places: Seq<int>| is_placed(tx, marked(tx), places),
{
    let places = Seq::new(tx.len() + 1, |k: int| place(tx, k));
    assert forall|k: int| 0 <= k < tx.len() implies {
        let at = #[trigger] places[k];
        &&& 0 <= at < marked(tx).len()
        &&& marked(tx)[at] == tx[k]
        &&& if opens_data(tx, k) && !begins_0x(tx, k + 1) {
            &&& places[k + 1] == at + 3
            &&& at + 2 < marked(tx).len()
            &&& marked(tx)[at + 1] == 0x3f
            &&& marked(tx)[at + 2] == 0x3f
        } else {
            places[k + 1] == at + 1
        }
    } by {
        lemma_byte_is_kept(tx, k);
    }
    assert(is_placed(tx, marked(tx), places));
}

/// A text in which every string for a key `data` begins with `0x` is handed over as it is.
pub proof fn law_plain_texts_are_not_marked(tx: Seq<u8>)
    requires
        forall|i: int|
            0 <= i < tx.len() && #[trigger] opens_data(tx, i) ==> begins_0x(tx, i + 1),
    ensures
        marked(tx) == tx,
{
    lemma_not_marked(tx, tx.len() as int);
    assert(tx.take(tx.len() as int) =~= tx);
}

proof fn lemma_not_marked(tx: Seq<u8>, n: int)
    requires
        0 <= n <= tx.len(),
        forall|i: int|
            0 <= i < tx.len() && #[trigger] opens_data(tx, i) ==> begins_0x(tx, i + 1),
    ensures
        marked_below(tx, n) == tx.take(n),
    decreases n,
{
    if n > 0 {
        lemma_not_marked(tx, n - 1);
        assert(tx.take(n) =~= tx.take(n - 1).push(tx[n - 1]));
    } else {
        assert(tx.take(n) =~= Seq::empty());
    }
}

} // verus!
