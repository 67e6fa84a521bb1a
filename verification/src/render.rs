//! The matrix renderer: converts a rectangular grid of boolean "module on/off"
//! values into a multi-line text block, two characters per module and one line
//! per row.

use vstd::prelude::*;

verus! {

/// The two-character glyph for one module: a solid block pair when the module
/// is on, two spaces when it is off.
pub open spec fn spec_cell(on: bool) -> Seq<char> {
    if on {
        "██"@
    } else {
        "  "@
    }
}

/// One rendered row: the glyphs of its cells concatenated in order, with no
/// separator.
pub open spec fn spec_row(row: Seq<bool>) -> Seq<char>
    decreases row.len(),
{
    if row.len() == 0 {
        Seq::<char>::empty()
    } else {
        spec_cell(row[0]) + spec_row(row.skip(1))
    }
}

/// The rendered text: each row's glyphs followed by a single newline, rows in
/// order; an empty matrix renders to the empty text.
pub open spec fn spec_matrix(m: Seq<Seq<bool>>) -> Seq<char>
    decreases m.len(),
{
    if m.len() == 0 {
        Seq::<char>::empty()
    } else {
        spec_row(m[0]) + "\n"@ + spec_matrix(m.skip(1))
    }
}

/// How many times the character `c` occurs in `s`.
pub open spec fn count_char(s: Seq<char>, c: char) -> nat
    decreases s.len(),
{
    if s.len() == 0 {
        0
    } else {
        count_char(s.skip(1), c) + (if s[0] == c { 1nat } else { 0nat })
    }
}

proof fn lemma_count_char_concat(a: Seq<char>, b: Seq<char>, c: char)
    ensures
        count_char(a + b, c) == count_char(a, c) + count_char(b, c),
    decreases a.len(),
{
    if a.len() == 0 {
        assert(a + b =~= b);
    } else {
        assert((a + b).skip(1) =~= a.skip(1) + b);
        lemma_count_char_concat(a.skip(1), b, c);
    }
}

proof fn lemma_row_push(row: Seq<bool>, b: bool)
    ensures
        spec_row(row.push(b)) == spec_row(row) + spec_cell(b),
    decreases row.len(),
{
    if row.len() == 0 {
        assert(row.push(b)[0] == b);
        assert(row.push(b).skip(1) =~= Seq::<bool>::empty());
        assert(spec_row(row.push(b).skip(1)) == Seq::<char>::empty());
        assert(spec_row(row.push(b)) =~= spec_row(row) + spec_cell(b));
    } else {
        assert(row.push(b).skip(1) =~= row.skip(1).push(b));
        lemma_row_push(row.skip(1), b);
        assert(spec_row(row.push(b)) =~= spec_row(row) + spec_cell(b));
    }
}

proof fn lemma_matrix_push(m: Seq<Seq<bool>>, r: Seq<bool>)
    ensures
        spec_matrix(m.push(r)) == spec_matrix(m) + spec_row(r) + "\n"@,
    decreases m.len(),
{
    if m.len() == 0 {
        assert(m.push(r)[0] == r);
        assert(m.push(r).skip(1) =~= Seq::<Seq<bool>>::empty());
        assert(spec_matrix(m.push(r).skip(1)) == Seq::<char>::empty());
        assert(spec_matrix(m.push(r)) =~= spec_matrix(m) + spec_row(r) + "\n"@);
    } else {
        assert(m.push(r).skip(1) =~= m.skip(1).push(r));
        lemma_matrix_push(m.skip(1), r);
        assert(spec_matrix(m.push(r)) =~= spec_matrix(m) + spec_row(r) + "\n"@);
    }
}

proof fn lemma_count_char_two(s: Seq<char>, c: char)
    requires
        s.len() == 2,
        s[0] != c,
        s[1] != c,
    ensures
        count_char(s, c) == 0,
{
    assert(s.skip(1)[0] == s[1]);
    assert(count_char(s.skip(1).skip(1), c) == 0);
    assert(count_char(s.skip(1), c) == 0);
}

proof fn lemma_row_no_newline(row: Seq<bool>)
    ensures
        count_char(spec_row(row), '\n') == 0,
    decreases row.len(),
{
    reveal_strlit("██");
    reveal_strlit("  ");
    if row.len() > 0 {
        lemma_row_no_newline(row.skip(1));
        lemma_count_char_concat(spec_cell(row[0]), spec_row(row.skip(1)), '\n');
        lemma_count_char_two(spec_cell(row[0]), '\n');
    }
}

/// Each rendered row holds exactly two characters per cell.
pub proof fn lemma_row_len(row: Seq<bool>)
    ensures
        spec_row(row).len() == 2 * row.len(),
    decreases row.len(),
{
    reveal_strlit("██");
    reveal_strlit("  ");
    if row.len() > 0 {
        lemma_row_len(row.skip(1));
    }
}

/// The rendered text holds exactly one newline per matrix row, and nothing in
/// a row's glyphs is a newline: its line count is the matrix's row count.
pub proof fn lemma_matrix_newline_count(m: Seq<Seq<bool>>)
    ensures
        count_char(spec_matrix(m), '\n') == m.len(),
    decreases m.len(),
{
    reveal_strlit("\n");
    if m.len() > 0 {
        lemma_matrix_newline_count(m.skip(1));
        lemma_row_no_newline(m[0]);
        lemma_count_char_concat(spec_row(m[0]) + "\n"@, spec_matrix(m.skip(1)), '\n');
        lemma_count_char_concat(spec_row(m[0]), "\n"@, '\n');
        assert(count_char("\n"@.skip(1), '\n') == 0);
        assert(count_char("\n"@, '\n') == 1);
    }
}

/// A rectangular matrix of `w`-cell rows renders to exactly
/// `m.len() * (2 * w + 1)` characters: two per cell plus one newline per row.
pub proof fn lemma_matrix_len(m: Seq<Seq<bool>>, w: nat)
    requires
        forall|i: int| 0 <= i < m.len() ==> (#[trigger] m[i]).len() == w,
    ensures
        spec_matrix(m).len() == m.len() * (2 * w + 1),
    decreases m.len(),
{
    reveal_strlit("\n");
    if m.len() == 0 {
        assert(m.len() * (2 * w + 1) == 0) by (nonlinear_arith)
            requires m.len() == 0;
    } else {
        lemma_row_len(m[0]);
        lemma_matrix_len(m.skip(1), w);
        assert(m.skip(1).len() * (2 * w + 1) + (2 * w + 1) == m.len() * (2 * w + 1))
            by (nonlinear_arith)
            requires m.len() >= 1 && m.skip(1).len() == m.len() - 1;
    }
}

/// Renders a module matrix into its printable text block: for each row, a
/// two-character glyph per cell (solid blocks when on, spaces when off) and a
/// closing newline. The output is a pure function of the matrix.
pub fn get_bool_matrix_as_string(mat: Vec<Vec<bool>>) -> (r: String)
    ensures
        r@ == spec_matrix(mat.deep_view()),
{
    let ghost m: Seq<Seq<bool>> = mat.deep_view();
    let mut output: String = String::new();
    let mut i: usize = 0;
    while i < mat.len()
        invariant
            0 <= i <= mat.len(),
            m == mat.deep_view(),
            output@ == spec_matrix(m.take(i as int)),
        decreases mat.len() - i,
    {
        let row: &Vec<bool> = &mat[i];
        proof {
            assert(row@ =~= m[i as int]);
        }
        let mut j: usize = 0;
        while j < row.len()
            invariant
                0 <= j <= row.len(),
                i < mat.len(),
                m == mat.deep_view(),
                row@ == m[i as int],
                output@ == spec_matrix(m.take(i as int)) + spec_row(row@.take(j as int)),
            decreases row.len() - j,
        {
            if row[j] {
                output.append("██");
            } else {
                output.append("  ");
            }
            proof {
                lemma_row_push(row@.take(j as int), row@[j as int]);
                assert(row@.take(j + 1 as int) =~= row@.take(j as int).push(row@[j as int]));
            }
            j = j + 1;
        }
        output.append("\n");
        proof {
            assert(row@.take(row@.len() as int) =~= row@);
            lemma_matrix_push(m.take(i as int), m[i as int]);
            assert(m.take(i + 1 as int) =~= m.take(i as int).push(m[i as int]));
        }
        i = i + 1;
    }
    proof {
        assert(m.take(mat@.len() as int) =~= m);
    }
    output
}

} // verus!
