//! The append-only diagnostics time series: one row of summary scalars per
//! simulation step, and its delimited-text export.
//!
//! The export is a byte table: a header line, then one line per recorded
//! step, each scalar rendered as a fixed-point decimal with six fractional
//! digits. Every byte of it is pinned by `spec_csv`.

use crate::fixed::{abs_i, SCALE};
use vstd::prelude::*;

verus! {

/// ASCII `-`.
pub const BYTE_MINUS: u8 = 45;

/// ASCII `.`.
pub const BYTE_DOT: u8 = 46;

/// ASCII `,`.
pub const BYTE_COMMA: u8 = 44;

/// ASCII line feed.
pub const BYTE_NEWLINE: u8 = 10;

/// ASCII `0`.
pub const BYTE_ZERO: u8 = 48;

/// Four parallel sequences, one entry appended per step, in chronological
/// order; rows are never mutated, reordered or truncated.
#[derive(Clone, Debug)]
pub struct DiagnosticsLog {
    pub time: Vec<i128>,
    pub center_impurity: Vec<i128>,
    pub edge_impurity: Vec<i128>,
    pub edge_turbulence: Vec<i128>,
}

impl DiagnosticsLog {
    /// The four columns always hold one value per recorded step.
    pub open spec fn wf(self) -> bool {
        &&& self.center_impurity@.len() == self.time@.len()
        &&& self.edge_impurity@.len() == self.time@.len()
        &&& self.edge_turbulence@.len() == self.time@.len()
    }

    pub fn new() -> (log: DiagnosticsLog)
        ensures
            log.wf(),
            log.time@.len() == 0,
            log.center_impurity@.len() == 0,
            log.edge_impurity@.len() == 0,
            log.edge_turbulence@.len() == 0,
    {
        DiagnosticsLog {
            time: Vec::new(),
            center_impurity: Vec::new(),
            edge_impurity: Vec::new(),
            edge_turbulence: Vec::new(),
        }
    }

    /// How many steps have been recorded.
    pub fn len(&self) -> (n: usize)
        ensures
            n == self.time@.len(),
    {
        self.time.len()
    }

    /// Appends one row; every prior row is left exactly as it was.
    pub fn record(&mut self, time: i128, center: i128, edge: i128, turbulence: i128)
        ensures
            final (self).time@ == old(self).time@.push(time),
            final (self).center_impurity@ == old(self).center_impurity@.push(center),
            final (self).edge_impurity@ == old(self).edge_impurity@.push(edge),
            final (self).edge_turbulence@ == old(self).edge_turbulence@.push(turbulence),
            old(self).wf() ==> final (self).wf(),
    {
        self.time.push(time);
        self.center_impurity.push(center);
        self.edge_impurity.push(edge);
        self.edge_turbulence.push(turbulence);
    }

    /// Renders the log as a delimited byte table: the header line, then one
    /// line per recorded step in insertion order, every byte as `spec_csv`
    /// prescribes.
    pub fn export_csv(&self) -> (out: Vec<u8>)
        requires
            self.wf(),
            forall|k: int| 0 <= k < self.time@.len() ==> #[trigger] self.time@[k] > i128::MIN,
            forall|k: int|
                0 <= k < self.center_impurity@.len() ==> #[trigger] self.center_impurity@[k]
                    > i128::MIN,
            forall|k: int|
                0 <= k < self.edge_impurity@.len() ==> #[trigger] self.edge_impurity@[k]
                    > i128::MIN,
            forall|k: int|
                0 <= k < self.edge_turbulence@.len() ==> #[trigger] self.edge_turbulence@[k]
                    > i128::MIN,
        ensures
            out@ == spec_csv(
                self.time@,
                self.center_impurity@,
                self.edge_impurity@,
                self.edge_turbulence@,
            ),
    {
        let mut out: Vec<u8> = Vec::new();
        push_header(&mut out);
        let n: usize = self.time.len();
        let mut i: usize = 0;
        while i < n
            invariant
                self.wf(),
                n == self.time@.len(),
                i <= n,
                forall|k: int| 0 <= k < self.time@.len() ==> #[trigger] self.time@[k] > i128::MIN,
                forall|k: int|
                    0 <= k < self.center_impurity@.len() ==> #[trigger] self.center_impurity@[k]
                        > i128::MIN,
                forall|k: int|
                    0 <= k < self.edge_impurity@.len() ==> #[trigger] self.edge_impurity@[k]
                        > i128::MIN,
                forall|k: int|
                    0 <= k < self.edge_turbulence@.len() ==> #[trigger] self.edge_turbulence@[k]
                        > i128::MIN,
                out@ == csv_header() + csv_rows(
                    self.time@,
                    self.center_impurity@,
                    self.edge_impurity@,
                    self.edge_turbulence@,
                    i as int,
                ),
            decreases n - i,
        {
            let ghost before = out@;
            push_fixed(&mut out, self.time[i]);
            out.push(BYTE_COMMA);
            push_fixed(&mut out, self.center_impurity[i]);
            out.push(BYTE_COMMA);
            push_fixed(&mut out, self.edge_impurity[i]);
            out.push(BYTE_COMMA);
            push_fixed(&mut out, self.edge_turbulence[i]);
            out.push(BYTE_NEWLINE);
            proof {
                assert(out@ =~= before + csv_row(
                    self.time@[i as int],
                    self.center_impurity@[i as int],
                    self.edge_impurity@[i as int],
                    self.edge_turbulence@[i as int],
                ));
                assert(out@ =~= csv_header() + csv_rows(
                    self.time@,
                    self.center_impurity@,
                    self.edge_impurity@,
                    self.edge_turbulence@,
                    i + 1,
                ));
            }
            i = i + 1;
        }
        out
    }
}

/// The digits of `n` in base ten, most significant first.
pub open spec fn dec_digits(n: nat) -> Seq<u8>
    decreases n,
{
    if n < 10 {
        seq![(BYTE_ZERO + n) as u8]
    } else {
        dec_digits(n / 10).push((BYTE_ZERO + n % 10) as u8)
    }
}

/// The low `width` digits of `n` in base ten, zero-padded to `width`.
pub open spec fn dec_frac(n: nat, width: nat) -> Seq<u8>
    decreases width,
{
    if width == 0 {
        Seq::empty()
    } else {
        dec_frac(n / 10, (width - 1) as nat).push((BYTE_ZERO + n % 10) as u8)
    }
}

/// A fixed-point scalar as decimal text: optional minus sign, the integer
/// part, a dot, and exactly six fractional digits.
pub open spec fn dec_fixed(v: int) -> Seq<u8> {
    let a = abs_i(v) as nat;
    let sign: Seq<u8> = if v < 0 {
        seq![BYTE_MINUS]
    } else {
        Seq::empty()
    };
    sign + dec_digits(a / (SCALE as nat)) + seq![BYTE_DOT] + dec_frac(a % (SCALE as nat), 6)
}

/// One data row: the four scalars, comma-separated, newline-terminated.
pub open spec fn csv_row(t: i128, c: i128, e: i128, tb: i128) -> Seq<u8> {
    dec_fixed(t as int) + seq![BYTE_COMMA] + dec_fixed(c as int) + seq![BYTE_COMMA] + dec_fixed(
        e as int,
    ) + seq![BYTE_COMMA] + dec_fixed(tb as int) + seq![BYTE_NEWLINE]
}

/// The header line `time,center_impurity,edge_impurity,turbulence` plus the
/// terminating newline, as bytes.
pub open spec fn csv_header() -> Seq<u8> {
    seq![
        116u8, 105, 109, 101, 44, 99, 101, 110, 116, 101, 114, 95, 105, 109, 112, 117, 114, 105,
        116, 121, 44, 101, 100, 103, 101, 95, 105, 109, 112, 117, 114, 105, 116, 121, 44, 116,
        117, 114, 98, 117, 108, 101, 110, 99, 101, 10,
    ]
}

/// The first `n` data rows, in insertion order.
pub open spec fn csv_rows(
    t: Seq<i128>,
    c: Seq<i128>,
    e: Seq<i128>,
    tb: Seq<i128>,
    n: int,
) -> Seq<u8>
    decreases n,
{
    if n <= 0 {
        Seq::empty()
    } else {
        csv_rows(t, c, e, tb, n - 1) + csv_row(t[n - 1], c[n - 1], e[n - 1], tb[n - 1])
    }
}

/// The whole export: the header line, then every recorded row.
pub open spec fn spec_csv(t: Seq<i128>, c: Seq<i128>, e: Seq<i128>, tb: Seq<i128>) -> Seq<u8> {
    csv_header() + csv_rows(t, c, e, tb, t.len() as int)
}

/// Appends the decimal digits of `n`.
fn push_digits(out: &mut Vec<u8>, n: u128)
    ensures
        final (out)@ == old(out)@ + dec_digits(n as nat),
    decreases n,
{
    if n < 10 {
        out.push(BYTE_ZERO + n as u8);
        proof {
            vstd::arithmetic::div_mod::lemma_small_mod(n as nat, 10);
            assert(final (out)@ =~= old(out)@ + dec_digits(n as nat));
        }
    } else {
        proof {
            assert(n as nat / 10 < n as nat) by (nonlinear_arith)
                requires
                    n >= 10,
            ;
        }
        push_digits(out, n / 10);
        out.push(BYTE_ZERO + (n % 10) as u8);
        proof {
            assert(final (out)@ =~= old(out)@ + dec_digits(n as nat));
        }
    }
}

/// Appends exactly `width` zero-padded low decimal digits of `n`.
fn push_frac(out: &mut Vec<u8>, n: u128, width: usize)
    ensures
        final (out)@ == old(out)@ + dec_frac(n as nat, width as nat),
    decreases width,
{
    if width > 0 {
        push_frac(out, n / 10, width - 1);
        out.push(BYTE_ZERO + (n % 10) as u8);
        proof {
            assert(final (out)@ =~= old(out)@ + dec_frac(n as nat, width as nat));
        }
    } else {
        proof {
            assert(final (out)@ =~= old(out)@ + dec_frac(n as nat, 0));
        }
    }
}

/// Appends one fixed-point scalar as decimal text.
fn push_fixed(out: &mut Vec<u8>, v: i128)
    requires
        v > i128::MIN,
    ensures
        final (out)@ == old(out)@ + dec_fixed(v as int),
{
    if v < 0 {
        out.push(BYTE_MINUS);
    }
    let a: i128 = if v < 0 {
        -v
    } else {
        v
    };
    let au: u128 = a as u128;
    let ip: u128 = au / 1_000_000;
    let fr: u128 = au % 1_000_000;
    push_digits(out, ip);
    out.push(BYTE_DOT);
    push_frac(out, fr, 6);
    proof {
        assert(au as nat == abs_i(v as int) as nat);
        assert(final (out)@ =~= old(out)@ + dec_fixed(v as int));
    }
}

/// Appends the header line.
fn push_header(out: &mut Vec<u8>)
    ensures
        final (out)@ == old(out)@ + csv_header(),
{
    out.push(116);
    out.push(105);
    out.push(109);
    out.push(101);
    out.push(44);
    out.push(99);
    out.push(101);
    out.push(110);
    out.push(116);
    out.push(101);
    out.push(114);
    out.push(95);
    out.push(105);
    out.push(109);
    out.push(112);
    out.push(117);
    out.push(114);
    out.push(105);
    out.push(116);
    out.push(121);
    out.push(44);
    out.push(101);
    out.push(100);
    out.push(103);
    out.push(101);
    out.push(95);
    out.push(105);
    out.push(109);
    out.push(112);
    out.push(117);
    out.push(114);
    out.push(105);
    out.push(116);
    out.push(121);
    out.push(44);
    out.push(116);
    out.push(117);
    out.push(114);
    out.push(98);
    out.push(117);
    out.push(108);
    out.push(101);
    out.push(110);
    out.push(99);
    out.push(101);
    out.push(10);
    proof {
        assert(final (out)@ =~= old(out)@ + csv_header());
    }
}

/// How many lines a byte table holds: its newline count.
pub open spec fn newline_count(s: Seq<u8>) -> nat
    decreases s.len(),
{
    if s.len() == 0 {
        0
    } else {
        newline_count(s.drop_last()) + if s.last() == BYTE_NEWLINE {
            1nat
        } else {
            0nat
        }
    }
}

/// Newlines in a concatenation are the newlines of the parts.
pub proof fn lemma_newline_count_add(a: Seq<u8>, b: Seq<u8>)
    ensures
        newline_count(a + b) == newline_count(a) + newline_count(b),
    decreases b.len(),
{
    if b.len() == 0 {
        assert(a + b =~= a);
    } else {
        lemma_newline_count_add(a, b.drop_last());
        assert((a + b).drop_last() =~= a + b.drop_last());
        assert((a + b).last() == b.last());
    }
}

/// Decimal digits contain no newline.
proof fn lemma_digits_no_newline(n: nat)
    ensures
        newline_count(dec_digits(n)) == 0,
    decreases n,
{
    if n < 10 {
        assert(newline_count(Seq::<u8>::empty()) == 0);
        assert(dec_digits(n).drop_last() =~= Seq::<u8>::empty());
    } else {
        lemma_digits_no_newline(n / 10);
        assert(dec_digits(n).drop_last() =~= dec_digits(n / 10));
    }
}

/// Zero-padded digits contain no newline.
proof fn lemma_frac_no_newline(n: nat, width: nat)
    ensures
        newline_count(dec_frac(n, width)) == 0,
    decreases width,
{
    if width > 0 {
        lemma_frac_no_newline(n / 10, (width - 1) as nat);
        assert(dec_frac(n, width).drop_last() =~= dec_frac(n / 10, (width - 1) as nat));
    }
}

/// A rendered scalar contains no newline.
proof fn lemma_fixed_no_newline(v: int)
    ensures
        newline_count(dec_fixed(v)) == 0,
{
    let a = abs_i(v) as nat;
    let sign: Seq<u8> = if v < 0 {
        seq![BYTE_MINUS]
    } else {
        Seq::empty()
    };
    lemma_digits_no_newline(a / (SCALE as nat));
    lemma_frac_no_newline(a % (SCALE as nat), 6);
    assert(newline_count(sign) == 0) by {
        assert(newline_count(Seq::<u8>::empty()) == 0);
        if v < 0 {
            assert(sign.drop_last() =~= Seq::<u8>::empty());
        }
    }
    lemma_newline_count_add(sign, dec_digits(a / (SCALE as nat)));
    lemma_newline_count_add(sign + dec_digits(a / (SCALE as nat)), seq![BYTE_DOT]);
    lemma_newline_count_add(
        sign + dec_digits(a / (SCALE as nat)) + seq![BYTE_DOT],
        dec_frac(a % (SCALE as nat), 6),
    );
    assert(newline_count(seq![BYTE_DOT]) == 0) by {
        assert(newline_count(Seq::<u8>::empty()) == 0);
        assert(seq![BYTE_DOT].drop_last() =~= Seq::<u8>::empty());
    }
}

/// One data row holds exactly one newline: its terminator.
proof fn lemma_row_one_newline(t: i128, c: i128, e: i128, tb: i128)
    ensures
        newline_count(csv_row(t, c, e, tb)) == 1,
{
    let comma: Seq<u8> = seq![BYTE_COMMA];
    let nl: Seq<u8> = seq![BYTE_NEWLINE];
    lemma_fixed_no_newline(t as int);
    lemma_fixed_no_newline(c as int);
    lemma_fixed_no_newline(e as int);
    lemma_fixed_no_newline(tb as int);
    assert(newline_count(comma) == 0) by {
        assert(newline_count(Seq::<u8>::empty()) == 0);
        assert(comma.drop_last() =~= Seq::<u8>::empty());
    }
    assert(newline_count(nl) == 1) by {
        assert(newline_count(Seq::<u8>::empty()) == 0);
        assert(nl.drop_last() =~= Seq::<u8>::empty());
    }
    let p1 = dec_fixed(t as int);
    let p2 = p1 + comma;
    let p3 = p2 + dec_fixed(c as int);
    let p4 = p3 + comma;
    let p5 = p4 + dec_fixed(e as int);
    let p6 = p5 + comma;
    let p7 = p6 + dec_fixed(tb as int);
    lemma_newline_count_add(p1, comma);
    lemma_newline_count_add(p2, dec_fixed(c as int));
    lemma_newline_count_add(p3, comma);
    lemma_newline_count_add(p4, dec_fixed(e as int));
    lemma_newline_count_add(p5, comma);
    lemma_newline_count_add(p6, dec_fixed(tb as int));
    lemma_newline_count_add(p7, nl);
}

/// The export holds exactly one line per recorded step, plus the header:
/// a log of `n` steps exports as `n + 1` newline-terminated lines.
pub proof fn lemma_export_line_count(t: Seq<i128>, c: Seq<i128>, e: Seq<i128>, tb: Seq<i128>)
    ensures
        newline_count(spec_csv(t, c, e, tb)) == t.len() + 1,
{
    lemma_header_one_newline();
    lemma_rows_newline_count(t, c, e, tb, t.len() as int);
    lemma_newline_count_add(csv_header(), csv_rows(t, c, e, tb, t.len() as int));
}

/// A byte sequence without newline bytes holds no line break.
proof fn lemma_no_newline(s: Seq<u8>)
    requires
        forall|i: int| 0 <= i < s.len() ==> s[i] != BYTE_NEWLINE,
    ensures
        newline_count(s) == 0,
    decreases s.len(),
{
    if s.len() > 0 {
        lemma_no_newline(s.drop_last());
    }
}

/// The header line holds exactly one newline.
proof fn lemma_header_one_newline()
    ensures
        newline_count(csv_header()) == 1,
{
    let h = csv_header();
    let body = h.drop_last();
    assert(h.len() == 46);
    assert(forall|i: int| 0 <= i < body.len() ==> body[i] != BYTE_NEWLINE);
    lemma_no_newline(body);
    assert(h.last() == BYTE_NEWLINE);
}

/// The first `n` rows hold exactly `n` newlines.
proof fn lemma_rows_newline_count(t: Seq<i128>, c: Seq<i128>, e: Seq<i128>, tb: Seq<i128>, n: int)
    ensures
        newline_count(csv_rows(t, c, e, tb, n)) == if n <= 0 {
            0
        } else {
            n
        },
    decreases n,
{
    if n <= 0 {
    } else {
        lemma_rows_newline_count(t, c, e, tb, n - 1);
        lemma_row_one_newline(t[n - 1], c[n - 1], e[n - 1], tb[n - 1]);
        lemma_newline_count_add(
            csv_rows(t, c, e, tb, n - 1),
            csv_row(t[n - 1], c[n - 1], e[n - 1], tb[n - 1]),
        );
    }
}

} // verus!
