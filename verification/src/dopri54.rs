//! The Dormand-Prince 5(4) tableau: 7 stages, a 5th-order solution with an
//! embedded 4th-order error estimator and 4th-order dense output.
//!
//! Every coefficient is kept as the bit pattern of its IEEE 754 binary64
//! value (`f64::to_bits` form); `f64::from_bits` recovers the number.

use vstd::prelude::*;

verus! {

/// Bit patterns of the strictly lower-triangular Runge-Kutta matrix `a`.
/// Row `k` holds the couplings of stage `k + 2` to stages `1 ..= k + 1`,
/// so row `k` has exactly `k + 1` entries.
pub open spec fn a_bits() -> Seq<Seq<u64>> {
    seq![
        // stage 2
        seq![
            0x3fc999999999999au64,  // 1.0 / 5.0
        ],
        // stage 3
        seq![
            0x3fb3333333333333u64,  // 3.0 / 40.0
            0x3fcccccccccccccdu64,  // 9.0 / 40.0
        ],
        // stage 4
        seq![
            0x3fef49f49f49f49fu64,  // 44.0 / 45.0
            0xc00ddddddddddddeu64,  // -56.0 / 15.0
            0x400c71c71c71c71cu64,  // 32.0 / 9.0
        ],
        // stage 5
        seq![
            0x40079eec0fc37181u64,  // 19372.0 / 6561.0
            0xc027310bd29520e4u64,  // -25360.0 / 2187.0
            0x4023a552363c5290u64,  // 64448.0 / 6561.0
            0xbfd29c9eba1e3345u64,  // -212.0 / 729.0
        ],
        // stage 6
        seq![
            0x4006c52bf5a814b0u64,  // 9017.0 / 3168.0
            0xc02583e0f83e0f84u64,  // -355.0 / 33.0
            0x4021d016a3721e8bu64,  // 46732.0 / 5247.0
            0x3fd1d1745d1745d1u64,  // 49.0 / 176.0
            0xbfd1818970d9cc2fu64,  // -5103.0 / 18656.0
        ],
        // stage 7
        seq![
            0x3fb7555555555555u64,  // 35.0 / 384.0
            0x0000000000000000u64,  // 0.0
            0x3fdcc0499a5605fbu64,  // 500.0 / 1113.0
            0x3fe4d55555555555u64,  // 125.0 / 192.0
            0xbfd4a1cfb2b78c13u64,  // -2187.0 / 6784.0
            0x3fc0c30c30c30c31u64,  // 11.0 / 84.0
        ],
    ]
}

/// Bit patterns of the stage abscissae `c`: the point within the step at
/// which each stage derivative is evaluated.
pub open spec fn c_bits() -> Seq<u64> {
    seq![
        0x0000000000000000u64,  // 0.0
        0x3fc999999999999au64,  // 1.0 / 5.0
        0x3fd3333333333333u64,  // 3.0 / 10.0
        0x3fe999999999999au64,  // 4.0 / 5.0
        0x3fec71c71c71c71cu64,  // 8.0 / 9.0
        0x3ff0000000000000u64,  // 1.0
        0x3ff0000000000000u64,  // 1.0
    ]
}

/// Bit patterns of the dense-output interpolation coefficients `d`.
pub open spec fn d_bits() -> Seq<u64> {
    seq![
        0xbff208439215a046u64,  // -12715105075.0 / 11282082432.0
        0x0000000000000000u64,  // 0.0
        0x40056744f3b9a987u64,  // 87487479700.0 / 32700410799.0
        0xc016bdfac7a2320cu64,  // -10690763975.0 / 1880347072.0
        0x400c2ceae0978c92u64,  // 701980252875.0 / 199316789632.0
        0xbffc46c8b61f95e5u64,  // -1453857185.0 / 822651844.0
        0x40030f4bdf0dc914u64,  // 69997945.0 / 29380423.0
    ]
}

/// Bit patterns of the embedded-method weights `e` used for local error
/// estimation.
pub open spec fn e_bits() -> Seq<u64> {
    seq![
        0x3f54320fedcba987u64,  // 71.0 / 57600.0
        0x0000000000000000u64,  // 0.0
        0xbf716b5a550abfc4u64,  // -71.0 / 16695.0
        0x3fa2eeeeeeeeeeefu64,  // 71.0 / 1920.0
        0xbfaa0ad1be229575u64,  // -686.0 / 13487.0
        0x3fa5748a7bdaf0e2u64,  // 22.0 / 525.0
        0xbf9999999999999au64,  // -1.0 / 40.0
    ]
}

/// The subscript pairs under which `a` is defined: the matrix is strictly
/// lower triangular, so stage `i` couples only to earlier stages `j < i`.
pub open spec fn a_valid(i: int, j: int) -> bool {
    2 <= i <= 7 && 1 <= j < i
}

/// The coefficient `a(i, j)` in 1-indexed mathematical notation: rows of
/// the table start at stage 2 and columns at stage 1.
pub open spec fn a_coeff(i: int, j: int) -> u64
    recommends
        a_valid(i, j),
{
    a_bits()[i - 2][j - 1]
}

/// The subscripts under which the stage-indexed sequences `c`, `d` and `e`
/// are defined: one entry per stage.
pub open spec fn stage_valid(i: int) -> bool {
    1 <= i <= 7
}

/// Shape of the coefficient tables: `a` has one row for each of stages
/// 2 through 7, and the row for stage `i` has exactly `i - 1` entries;
/// `c`, `d` and `e` have one entry per stage.
pub proof fn lemma_table_shapes()
    ensures
        a_bits().len() == 6,
        forall|k: int| 0 <= k < 6 ==> #[trigger] a_bits()[k].len() == k + 1,
        c_bits().len() == 7,
        d_bits().len() == 7,
        e_bits().len() == 7,
{
    assert forall|k: int| 0 <= k < 6 implies #[trigger] a_bits()[k].len() == k + 1 by {
        assert(a_bits()[0].len() == 1);
        assert(a_bits()[1].len() == 2);
        assert(a_bits()[2].len() == 3);
        assert(a_bits()[3].len() == 4);
        assert(a_bits()[4].len() == 5);
        assert(a_bits()[5].len() == 6);
    }
}

/// The Dormand-Prince 5(4) Butcher tableau: an immutable value built once
/// by [`Dopri54::new`] and read through 1-indexed accessors.
pub struct Dopri54 {
    a: Vec<Vec<u64>>,
    c: Vec<u64>,
    d: Vec<u64>,
    e: Vec<u64>,
}

impl Dopri54 {
    /// The rows of the stored Runge-Kutta matrix, as a mathematical
    /// sequence of sequences.
    pub closed spec fn a_rows(&self) -> Seq<Seq<u64>> {
        Seq::new(self.a@.len(), |k: int| self.a@[k]@)
    }

    /// The stored abscissae, as a mathematical sequence.
    pub closed spec fn c_seq(&self) -> Seq<u64> {
        self.c@
    }

    /// The stored dense-output coefficients, as a mathematical sequence.
    pub closed spec fn d_seq(&self) -> Seq<u64> {
        self.d@
    }

    /// The stored error-estimator weights, as a mathematical sequence.
    pub closed spec fn e_seq(&self) -> Seq<u64> {
        self.e@
    }

    /// A well-formed tableau holds exactly the published coefficient
    /// tables, nothing else.
    pub open spec fn wf(&self) -> bool {
        &&& self.a_rows() == a_bits()
        &&& self.c_seq() == c_bits()
        &&& self.d_seq() == d_bits()
        &&& self.e_seq() == e_bits()
    }

    /// Builds the tableau.  Construction takes no input, cannot fail, and
    /// always yields the same value; the value is never mutated afterwards.
    pub fn new() -> (t: Dopri54)
        ensures
            t.wf(),
    {
        let a: Vec<Vec<u64>> = vec![
            // stage 2
            vec![
                0x3fc999999999999a,
            ],
            // stage 3
            vec![
                0x3fb3333333333333,
                0x3fcccccccccccccd,
            ],
            // stage 4
            vec![
                0x3fef49f49f49f49f,
                0xc00dddddddddddde,
                0x400c71c71c71c71c,
            ],
            // stage 5
            vec![
                0x40079eec0fc37181,
                0xc027310bd29520e4,
                0x4023a552363c5290,
                0xbfd29c9eba1e3345,
            ],
            // stage 6
            vec![
                0x4006c52bf5a814b0,
                0xc02583e0f83e0f84,
                0x4021d016a3721e8b,
                0x3fd1d1745d1745d1,
                0xbfd1818970d9cc2f,
            ],
            // stage 7
            vec![
                0x3fb7555555555555,
                0x0000000000000000,
                0x3fdcc0499a5605fb,
                0x3fe4d55555555555,
                0xbfd4a1cfb2b78c13,
                0x3fc0c30c30c30c31,
            ],
        ];
        let c: Vec<u64> = vec![
            0x0000000000000000,
            0x3fc999999999999a,
            0x3fd3333333333333,
            0x3fe999999999999a,
            0x3fec71c71c71c71c,
            0x3ff0000000000000,
            0x3ff0000000000000,
        ];
        let d: Vec<u64> = vec![
            0xbff208439215a046,
            0x0000000000000000,
            0x40056744f3b9a987,
            0xc016bdfac7a2320c,
            0x400c2ceae0978c92,
            0xbffc46c8b61f95e5,
            0x40030f4bdf0dc914,
        ];
        let e: Vec<u64> = vec![
            0x3f54320fedcba987,
            0x0000000000000000,
            0xbf716b5a550abfc4,
            0x3fa2eeeeeeeeeeef,
            0xbfaa0ad1be229575,
            0x3fa5748a7bdaf0e2,
            0xbf9999999999999a,
        ];
        let t = Dopri54 { a, c, d, e };
        proof {
            assert(t.a@[0]@ =~= a_bits()[0]);
            assert(t.a@[1]@ =~= a_bits()[1]);
            assert(t.a@[2]@ =~= a_bits()[2]);
            assert(t.a@[3]@ =~= a_bits()[3]);
            assert(t.a@[4]@ =~= a_bits()[4]);
            assert(t.a@[5]@ =~= a_bits()[5]);
            assert(t.a_rows() =~= a_bits());
            assert(t.c_seq() =~= c_bits());
            assert(t.d_seq() =~= d_bits());
            assert(t.e_seq() =~= e_bits());
        }
        t
    }

    /// Returns the Runge-Kutta matrix coefficient `a(i, j)` for subscripts
    /// `2 <= i <= 7`, `1 <= j < i`, and `None` for every other pair: the
    /// diagonal and upper triangle are structurally absent, never zero.
    pub fn a(&self, i: usize, j: usize) -> (r: Option<u64>)
        requires
            self.wf(),
        ensures
            a_valid(i as int, j as int) ==> r == Some(a_coeff(i as int, j as int)),
            !a_valid(i as int, j as int) ==> r is None,
    {
        if 2 <= i && i <= 7 && 1 <= j && j < i {
            proof {
                lemma_table_shapes();
                assert(self.a@[i - 2]@ == self.a_rows()[i - 2]);
            }
            Some(self.a[i - 2][j - 1])
        } else {
            None
        }
    }

    /// Returns the stage abscissa `c(i)` for `1 <= i <= 7`, and `None` for
    /// every other subscript.
    pub fn c(&self, i: usize) -> (r: Option<u64>)
        requires
            self.wf(),
        ensures
            stage_valid(i as int) ==> r == Some(c_bits()[i as int - 1]),
            !stage_valid(i as int) ==> r is None,
    {
        if 1 <= i && i <= 7 {
            proof {
                lemma_table_shapes();
            }
            Some(self.c[i - 1])
        } else {
            None
        }
    }

    /// Returns the dense-output coefficient `d(i)` for `1 <= i <= 7`, and
    /// `None` for every other subscript.
    pub fn d(&self, i: usize) -> (r: Option<u64>)
        requires
            self.wf(),
        ensures
            stage_valid(i as int) ==> r == Some(d_bits()[i as int - 1]),
            !stage_valid(i as int) ==> r is None,
    {
        if 1 <= i && i <= 7 {
            proof {
                lemma_table_shapes();
            }
            Some(self.d[i - 1])
        } else {
            None
        }
    }

    /// Returns the error-estimator weight `e(i)` for `1 <= i <= 7`, and
    /// `None` for every other subscript.
    pub fn e(&self, i: usize) -> (r: Option<u64>)
        requires
            self.wf(),
        ensures
            stage_valid(i as int) ==> r == Some(e_bits()[i as int - 1]),
            !stage_valid(i as int) ==> r is None,
    {
        if 1 <= i && i <= 7 {
            proof {
                lemma_table_shapes();
            }
            Some(self.e[i - 1])
        } else {
            None
        }
    }
}

/// Construction is deterministic and pure: any two well-formed tableaux
/// hold identical coefficient tables, so reading the same subscript from
/// two separately constructed instances yields identical values.
pub proof fn lemma_construction_deterministic(t1: &Dopri54, t2: &Dopri54)
    requires
        t1.wf(),
        t2.wf(),
    ensures
        t1.a_rows() == t2.a_rows(),
        t1.c_seq() == t2.c_seq(),
        t1.d_seq() == t2.d_seq(),
        t1.e_seq() == t2.e_seq(),
{
}

} // verus!
