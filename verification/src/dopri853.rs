//! The Dormand-Prince 8(5,3) tableau: 16 stages, an 8th-order solution
//! with embedded 5th- and 3rd-order error estimators and 7th-order dense
//! output.
//!
//! Every coefficient is kept as the bit pattern of its IEEE 754 binary64
//! value (`f64::to_bits` form); `f64::from_bits` recovers the number.

use vstd::prelude::*;

verus! {

/// Bit patterns of the strictly lower-triangular Runge-Kutta matrix `a`.
/// Row `k` holds the couplings of stage `k + 2` to stages `1 ..= k + 1`,
/// so row `k` has exactly `k + 1` entries.  Interior zero couplings are
/// explicit entries; only the diagonal and upper triangle are absent.
pub open spec fn a_bits() -> Seq<Seq<u64>> {
    seq![
        // stage 2
        seq![
            0x3faaee6838dae63au64,  // 5.26001519587677318785587544488E-2
        ],
        // stage 3
        seq![
            0x3f9432ce2aa42cacu64,  // 1.97250569845378994544595329183E-2
            0x3fae4c353ff64302u64,  // 5.91751709536136983633785987549E-2
        ],
        // stage 4
        seq![
            0x3f9e4c353ff64302u64,  // 2.95875854768068491816892993775E-2
            0x0000000000000000u64,  // 0.0
            0x3fb6b927eff8b241u64,  // 8.87627564304205475450678981324E-2
        ],
        // stage 5
        seq![
            0x3fcee50d7ecde9fau64,  // 2.41365134159266685502369798665E-1
            0x0000000000000000u64,  // 0.0
            0xbfec4e3ab5ad1507u64,  // -8.84549479328286085344864962717E-1
            0x3fed983d7ac79ef5u64,  // 9.24834003261792003115737966543E-1
        ],
        // stage 6
        seq![
            0x3fa2f684bda12f68u64,  // 3.7037037037037037037037037037E-2
            0x0000000000000000u64,  // 0.0
            0x0000000000000000u64,  // 0.0
            0x3fc5ddb63bdb6d36u64,  // 1.70828608729473871279604482173E-1
            0x3fc00f533f66f19au64,  // 1.25467687566822425016691814123E-1
        ],
        // stage 7
        seq![
            0x3fa3000000000000u64,  // 3.7109375E-2
            0x0000000000000000u64,  // 0.0
            0x0000000000000000u64,  // 0.0
            0x3fc5cad30f3347edu64,  // 1.70252211019544039314978060272E-1
            0x3faed4b3c332e04du64,  // 6.02165389804559606850219397283E-2
            0xbf92000000000000u64,  // -1.7578125E-2
        ],
        // stage 8
        seq![
            0x3fa2fdb8fee78792u64,  // 3.70920001185047927108779319836E-2
            0x0000000000000000u64,  // 0.0
            0x0000000000000000u64,  // 0.0
            0x3fc5cf23f6595d72u64,  // 1.70383925712239993810214054705E-1
            0x3fbb758640dea698u64,  // 1.07262030446373284651809199168E-1
            0xbf8f5fcc20fcd32fu64,  // -1.53194377486244017527936158236E-2
            0x3f80f1d92efb0b71u64,  // 8.27378916381402288758473766002E-3
        ],
        // stage 9
        seq![
            0x3fe3f8b78b985813u64,  // 6.24110958716075717114429577812E-1
            0x0000000000000000u64,  // 0.0
            0x0000000000000000u64,  // 0.0
            0xc00ae31bacc6bc8au64,  // -3.36089262944694129406857109825E0
            0xbfebc873f08e11f9u64,  // -8.68219346841726006818189891453E-1
            0x403b9793d88d1855u64,  // 2.75920996994467083049415600797E1
            0x40342770f892ad69u64,  // 2.01540675504778934086186788979E1
            0xc045beb4865c42f9u64,  // -4.34898841810699588477366255144E1
        ],
        // stage 10
        seq![
            0x3fde9205e321b655u64,  // 4.77662536438264365890433908527E-1
            0x0000000000000000u64,  // 0.0
            0x0000000000000000u64,  // 0.0
            0xc003e7a8a34bd27fu64,  // -2.48811461997166764192642586468E0
            0xbfe2e3a9968c93c8u64,  // -5.90290826836842996371446475743E-1
            0x40353ae4a6d655eeu64,  // 2.12300514481811942347288949897E1
            0x402e8ef7b5f258b8u64,  // 1.52792336328824235832596922938E1
            0xc040a4e418d711b9u64,  // -3.32882109689848629194453265587E1
            0xbf94d1b3d9b4a876u64,  // -2.03312017085086261358222928593E-2
        ],
        // stage 11
        seq![
            0xbfedfd121f1d399bu64,  // -9.3714243008598732571704021658E-1
            0x0000000000000000u64,  // 0.0
            0x0000000000000000u64,  // 0.0
            0x4014bed869fb0b9du64,  // 5.18637242884406370830023853209E0
            0x3ff1768702792ea9u64,  // 1.09143734899672957818500254654E0
            0xc0204cb0e2110c1cu64,  // -8.14978701074692612513997267357E0
            0xc032852305e975a8u64,  // -1.85200656599969598641566180701E1
            0x4036bd4f06cb863au64,  // 2.27394870993505042818970056734E1
            0x4003f2e777cf109du64,  // 2.49360555267965238987089396762E0
            0xc0085fc60d2b572cu64,  // -3.0467644718982195003823669022E0
        ],
        // stage 12
        seq![
            0x40022fbd3b09fcdcu64,  // 2.27331014751653820792359768449E0
            0x0000000000000000u64,  // 0.0
            0x0000000000000000u64,  // 0.0
            0xc02511a963cafe55u64,  // -1.05344954667372501984066689879E1
            0xc00001c935ac72acu64,  // -2.00087205822486249909675718444E0
            0xc031f57c8eff3006u64,  // -1.79589318631187989172765950534E1
            0x403bf2ea18b58a01u64,  // 2.79488845294199600508499808837E1
            0xc006df3a7d1cec13u64,  // -2.85899827713502369474065508674E0
            0xc021bee71a9f33a9u64,  // -8.87285693353062954433549289258E0
            0x4028b89c42c81861u64,  // 1.23605671757943030647266201528E1
            0x3fe496ac6253e202u64,  // 6.43392746015763530355970484046E-1
        ],
        // stage 13
        seq![
            0x0000000000000000u64,  // 0.0
            0x0000000000000000u64,  // 0.0
            0x0000000000000000u64,  // 0.0
            0x0000000000000000u64,  // 0.0
            0x0000000000000000u64,  // 0.0
            0x0000000000000000u64,  // 0.0
            0x0000000000000000u64,  // 0.0
            0x0000000000000000u64,  // 0.0
            0x0000000000000000u64,  // 0.0
            0x0000000000000000u64,  // 0.0
            0x0000000000000000u64,  // 0.0
            0x0000000000000000u64,  // 0.0
        ],
        // stage 14
        seq![
            0x3facc1fca2ceb148u64,  // 5.61675022830479523392909219681E-2
            0x0000000000000000u64,  // 0.0
            0x0000000000000000u64,  // 0.0
            0x0000000000000000u64,  // 0.0
            0x0000000000000000u64,  // 0.0
            0x0000000000000000u64,  // 0.0
            0x3fd03958f21a35b8u64,  // 2.53500210216624811088794765333E-1
            0xbfcf84c2c277c23eu64,  // -2.46239037470802489917441475441E-1
            0xbfbfcb02555c9defu64,  // -1.24191423263816360469010140626E-1
            0x3fc39f10ce2d1913u64,  // 1.5329179827876569731206322685E-1
            0x3f80cbb69b38652cu64,  // 8.20105229563468988491666602057E-3
            0x3f7eff840f396ba9u64,  // 7.56789766054569976138603589584E-3
            0xbf80fe8ab4fa4830u64,  // -8.298E-3
        ],
        // stage 15
        seq![
            0x3fa04ca1897bdb63u64,  // 3.18346481635021405060768473261E-2
            0x0000000000000000u64,  // 0.0
            0x0000000000000000u64,  // 0.0
            0x0000000000000000u64,  // 0.0
            0x0000000000000000u64,  // 0.0
            0x3f9cfae9e5f59f45u64,  // 2.83009096723667755288322961402E-2
            0x3fab69db017c8cf9u64,  // 5.35419883074385676223797384372E-2
            0xbfac1ef72fc69469u64,  // -5.49237485713909884646569340306E-2
            0x0000000000000000u64,  // 0.0
            0x0000000000000000u64,  // 0.0
            0xbf1c6710eef6e153u64,  // -1.08347328697249322858509316994E-4
            0x3f39127a52d32320u64,  // 3.82571090835658412954920192323E-4
            0xbf36500e13e7149bu64,  // -3.40465008687404560802977114492E-4
            0x3fc21686b20cd989u64,  // 1.41312443674632500278074618366E-1
        ],
        // stage 16
        seq![
            0xbfdb7309792b6015u64,  // -4.28896301583791923408573538692E-1
            0x0000000000000000u64,  // 0.0
            0x0000000000000000u64,  // 0.0
            0x0000000000000000u64,  // 0.0
            0x0000000000000000u64,  // 0.0
            0xc012ca5d44afdc9au64,  // -4.69762141536116384314449447206E0
            0x401ebbd2c419eda3u64,  // 7.68342119606259904184240953878E0
            0x401046a54457171cu64,  // 4.06898981839711007970213554331E0
            0x3fd6d49e44edba44u64,  // 3.56727187455281109270669543021E-1
            0x0000000000000000u64,  // 0.0
            0x0000000000000000u64,  // 0.0
            0x0000000000000000u64,  // 0.0
            0xbf56ebeec24871d4u64,  // -1.39902416515901462129418009734E-3
            0x40079482a23f1996u64,  // 2.9475147891527723389556272149E0
            0xc0224d4a6dca2222u64,  // -9.15095847217987001081870187138E0
        ],
    ]
}

/// Bit patterns of the primary solution weights `b`.  Only the first 12
/// stages contribute to the primary solution; the last four exist for
/// dense output alone, so `b` has 12 entries, not 16.
pub open spec fn b_bits() -> Seq<u64> {
    seq![
        0x3fabcc6368d1177cu64,  // 5.42937341165687622380535766363E-2
        0x0000000000000000u64,  // 0.0
        0x0000000000000000u64,  // 0.0
        0x0000000000000000u64,  // 0.0
        0x0000000000000000u64,  // 0.0
        0x4011cd1ed2ad5ae2u64,  // 4.45031289275240888144113950566E0
        0x3ffe43a845d5ab9fu64,  // 1.89151789931450038304281599044E0
        0xc017346ecf96af43u64,  // -5.8012039600105847814672114227E0
        0x3fd3ea1df2f0eb98u64,  // 3.1116436695781989440891606237E-1
        0xbfc37a028f43b002u64,  // -1.52160949662516078556178806805E-1
        0x3fc9c657697fe72du64,  // 2.01365400804030348374776537501E-1
        0x3fa6e44f50ab6bc2u64,  // 4.47106157277725905176885569043E-2
    ]
}

/// Bit patterns of the three auxiliary weights `bhh` of the secondary
/// error estimator.
pub open spec fn bhh_bits() -> Seq<u64> {
    seq![
        0x3fcf3e7cf9f3e7d0u64,  // 0.244094488188976377952755905512E+00
        0x3fe77bac0cce5157u64,  // 0.733846688281611857341361741547E+00
        0x3f96969696969697u64,  // 0.220588235294117647058823529412E-01
    ]
}

/// Bit patterns of the stage abscissae `c`: the point within the step at
/// which each stage derivative is evaluated.
pub open spec fn c_bits() -> Seq<u64> {
    seq![
        0x0000000000000000u64,  // 0.0
        0x3faaee6838dae63au64,  // 0.526001519587677318785587544488E-01
        0x3fb432ce2aa42cacu64,  // 0.789002279381515978178381316732E-01
        0x3fbe4c353ff64302u64,  // 0.118350341907227396726757197510E+00
        0x3fd2068c499c08d9u64,  // 0.281649658092772603273242802490E+00
        0x3fd5555555555555u64,  // 0.333333333333333333333333333333E+00
        0x3fd0000000000000u64,  // 0.25E+00
        0x3fd3b13b13b13b14u64,  // 0.307692307692307692307692307692E+00
        0x3fe4d74d74d74d75u64,  // 0.651282051282051282051282051282E+00
        0x3fe3333333333333u64,  // 0.6E+00
        0x3feb6db6db6db6dbu64,  // 0.857142857142857142857142857142E+00
        0x0000000000000000u64,  // 0.0
        0x0000000000000000u64,  // 0.0
        0x3fb999999999999au64,  // 0.1E+00
        0x3fc999999999999au64,  // 0.2E+00
        0x3fe8e38e38e38e39u64,  // 0.777777777777777777777777777778E+00
    ]
}

/// Bit patterns of the dense-output interpolation coefficients `d`: one
/// row per auxiliary polynomial, numbered 4 through 7, each row spanning
/// all 16 stage columns with explicit zero entries.
pub open spec fn d_bits() -> Seq<Seq<u64>> {
    seq![
        // dense-output row 4
        seq![
            0xc020db9dcc37c81bu64,  // -0.84289382761090128651353491142E+01
            0x0000000000000000u64,  // 0.0
            0x0000000000000000u64,  // 0.0
            0x0000000000000000u64,  // 0.0
            0x0000000000000000u64,  // 0.0
            0x3fe2228765f0a2ebu64,  // 0.56671495351937776962531783590E+00
            0xc0088d35a1175376u64,  // -0.30689499459498916912797304727E+01
            0x400313cca2e462ecu64,  // 0.23846676565120698287728149680E+01
            0x4000efafd3c0d1bdu64,  // 0.21170345824450282767155149946E+01
            0xbfebe2709a4ac0d3u64,  // -0.87139158377797299206789907490E+00
            0x4001ec6a759da28bu64,  // 0.22404374302607882758541771650E+01
            0x3fe435e4b2f53319u64,  // 0.63157877876946881815570249290E+00
            0xbfb6c81218b7f07cu64,  // -0.88990336451333310820698117400E-01
            0x40322604753358b4u64,  // 0.18148505520854727256656404962E+02
            0xc02263a6db60dfa1u64,  // -0.91946323924783554000451984436E+01
            0xc011be8052a2581du64,  // -0.44360363875948939664310572000E+01
        ],
        // dense-output row 5
        seq![
            0x4024dae269ad44fcu64,  // 0.10427508642579134603413151009E+02
            0x0000000000000000u64,  // 0.0
            0x0000000000000000u64,  // 0.0
            0x0000000000000000u64,  // 0.0
            0x0000000000000000u64,  // 0.0
            0x406e49125d57ed67u64,  // 0.24228349177525818288430175319E+03
            0x4064a66a19b8434bu64,  // 0.16520045171727028198505394887E+03
            0xc07768bf81e14e35u64,  // -0.37454675472269020279518312152E+03
            0xc0361d194558cffbu64,  // -0.22113666853125306036270938578E+02
            0x401eef08f933a023u64,  // 0.77334326684722638389603898808E+01
            0xc03eac90d122c30du64,  // -0.30674084731089398182061213626E+02
            0xc022aa0d032a0acdu64,  // -0.93321305264302278729567221706E+01
            0x402f64fc65250f7cu64,  // 0.15697238121770843886131091075E+02
            0xc03f23afedecfd53u64,  // -0.31139403219565177677282850411E+02
            0xc022b4b2806665cau64,  // -0.93529243588444783865713862664E+01
            0x4041e88e43070a10u64,  // 0.35816841486394083752465898540E+02
        ],
        // dense-output row 6
        seq![
            0x4033fc2c7303381fu64,  // 0.19985053242002433820987653617E+02
            0x0000000000000000u64,  // 0.0
            0x0000000000000000u64,  // 0.0
            0x0000000000000000u64,  // 0.0
            0x0000000000000000u64,  // 0.0
            0xc0783098d10f2521u64,  // -0.38703730874935176555105901742E+03
            0xc067a5b34edf4d39u64,  // -0.18917813819516756882830838328E+03
            0x40807e771c2c6a0cu64,  // 0.52780815920542364900561016686E+03
            0xc02725d68dc06f96u64,  // -0.11573902539959630126141871134E+02
            0x401b8661dd0f8bd7u64,  // 0.68812326946963000169666922661E+01
            0xbff0027a7d67fc68u64,  // -0.10006050966910838403183860980E+01
            0x3fe8e308023d3331u64,  // 0.77771377980534432092869265740E+00
            0xc00639c3efff56d2u64,  // -0.27782057523535084065932004339E+01
            0xc04e192d4f30c77fu64,  // -0.60196695231264120758267380846E+02
            0x40551481861928c0u64,  // 0.84320405506677161018159903784E+02
            0x4027fc0d95740812u64,  // 0.11992291136182789328035130030E+02
        ],
        // dense-output row 7
        seq![
            0xc039b1a59f97e9a3u64,  // -0.25693933462703749003312586129E+02
            0x0000000000000000u64,  // 0.0
            0x0000000000000000u64,  // 0.0
            0x0000000000000000u64,  // 0.0
            0x0000000000000000u64,  // 0.0
            0xc06346126bd860c7u64,  // -0.15418974869023643374053993627E+03
            0xc06cf0f0ac990990u64,  // -0.23152937917604549567536039109E+03
            0x40765a39d3b3c602u64,  // 0.35763911791061412378285349910E+03
            0x405759f0d4d83c70u64,  // 0.93405324183624310003907691704E+02
            0xc042baaa552107abu64,  // -0.37458323136451633156875139351E+02
            0x405a0660a855838eu64,  // 0.10409964950896230045147246184E+03
            0x403dd71d78528cf6u64,  // 0.29840293426660503123344363579E+02
            0xc045c4484e37f77eu64,  // -0.43533456590011143754432175058E+02
            0x405814c57df82010u64,  // 0.96324553959188282948394950600E+02
            0xc04396b082b5cd1eu64,  // -0.39177261675615439165231486172E+02
            0xc062b7423e1cb30du64,  // -0.14972683625798562581422125276E+03
        ],
    ]
}

/// Bit patterns of the embedded-method weights `e` used for local error
/// estimation; stages that do not participate hold explicit zeros.
pub open spec fn e_bits() -> Seq<u64> {
    seq![
        0x3f8adeaea1607e1au64,  // 0.1312004499419488073250102996E-01
        0x0000000000000000u64,  // 0.0
        0x0000000000000000u64,  // 0.0
        0x0000000000000000u64,  // 0.0
        0x0000000000000000u64,  // 0.0
        0xbff39a3da55ab5c3u64,  // -0.1225156446376204440720569753E+01
        0xbfdfba83bede8a72u64,  // -0.4957589496572501915214079952E+00
        0x3ffaa149f7eda509u64,  // 0.1664377182454986536961530415E+01
        0xbfd66bc9b10e7e71u64,  // -0.3503288487499736816886487290E+00
        0x3fd56330d0783989u64,  // 0.3341791187130174790297318841E+00
        0x3fb4f8eb54a31435u64,  // 0.8192320648511571246570742613E-01
        0xbf96e44f50ab6bc2u64,  // -0.2235530786388629525884427845E-01
        0x0000000000000000u64,  // 0.0
        0x0000000000000000u64,  // 0.0
        0x0000000000000000u64,  // 0.0
        0x0000000000000000u64,  // 0.0
    ]
}

/// The subscript pairs under which `a` is defined: the matrix is strictly
/// lower triangular, so stage `i` couples only to earlier stages `j < i`.
pub open spec fn a_valid(i: int, j: int) -> bool {
    2 <= i <= 16 && 1 <= j < i
}

/// The coefficient `a(i, j)` in 1-indexed mathematical notation: rows of
/// the table start at stage 2 and columns at stage 1.
pub open spec fn a_coeff(i: int, j: int) -> u64
    recommends
        a_valid(i, j),
{
    a_bits()[i - 2][j - 1]
}

/// The subscripts under which the stage-indexed sequences `c` and `e` are
/// defined: one entry per stage.
pub open spec fn stage_valid(i: int) -> bool {
    1 <= i <= 16
}

/// The subscripts under which `b` is defined: the primary solution weights
/// stop at stage 12.
pub open spec fn b_valid(i: int) -> bool {
    1 <= i <= 12
}

/// The subscripts under which `bhh` is defined.
pub open spec fn bhh_valid(i: int) -> bool {
    1 <= i <= 3
}

/// The subscript pairs under which `d` is defined: the dense-output rows
/// are numbered 4 through 7 and every row spans all 16 stage columns.
pub open spec fn d_valid(i: int, j: int) -> bool {
    4 <= i <= 7 && 1 <= j <= 16
}

/// The coefficient `d(i, j)` in 1-indexed mathematical notation: rows of
/// the table start at polynomial number 4 and columns at stage 1.
pub open spec fn d_coeff(i: int, j: int) -> u64
    recommends
        d_valid(i, j),
{
    d_bits()[i - 4][j - 1]
}

/// Shape of the coefficient tables: `a` has one row for each of stages
/// 2 through 16, and the row for stage `i` has exactly `i - 1` entries;
/// `d` has one 16-column row for each of polynomials 4 through 7; `b`
/// stops at stage 12, `bhh` has 3 entries, and `c` and `e` have one entry
/// per stage.
pub proof fn lemma_table_shapes()
    ensures
        a_bits().len() == 15,
        forall|k: int| 0 <= k < 15 ==> #[trigger] a_bits()[k].len() == k + 1,
        b_bits().len() == 12,
        bhh_bits().len() == 3,
        c_bits().len() == 16,
        d_bits().len() == 4,
        forall|k: int| 0 <= k < 4 ==> #[trigger] d_bits()[k].len() == 16,
        e_bits().len() == 16,
{
    assert forall|k: int| 0 <= k < 15 implies #[trigger] a_bits()[k].len() == k + 1 by {
        assert(a_bits()[0].len() == 1);
        assert(a_bits()[1].len() == 2);
        assert(a_bits()[2].len() == 3);
        assert(a_bits()[3].len() == 4);
        assert(a_bits()[4].len() == 5);
        assert(a_bits()[5].len() == 6);
        assert(a_bits()[6].len() == 7);
        assert(a_bits()[7].len() == 8);
        assert(a_bits()[8].len() == 9);
        assert(a_bits()[9].len() == 10);
        assert(a_bits()[10].len() == 11);
        assert(a_bits()[11].len() == 12);
        assert(a_bits()[12].len() == 13);
        assert(a_bits()[13].len() == 14);
        assert(a_bits()[14].len() == 15);
    }
    assert forall|k: int| 0 <= k < 4 implies #[trigger] d_bits()[k].len() == 16 by {
        assert(d_bits()[0].len() == 16);
        assert(d_bits()[1].len() == 16);
        assert(d_bits()[2].len() == 16);
        assert(d_bits()[3].len() == 16);
    }
}

/// The Dormand-Prince 8(5,3) Butcher tableau: an immutable value built
/// once by [`Dopri853::new`] and read through 1-indexed accessors.
pub struct Dopri853 {
    num_stages: usize,
    order: i32,
    a: Vec<Vec<u64>>,
    b: Vec<u64>,
    bhh: Vec<u64>,
    c: Vec<u64>,
    d: Vec<Vec<u64>>,
    e: Vec<u64>,
}

impl Dopri853 {
    /// The stored stage count.
    pub closed spec fn stage_count(&self) -> usize {
        self.num_stages
    }

    /// The stored dense-output order.
    pub closed spec fn order_value(&self) -> i32 {
        self.order
    }

    /// The rows of the stored Runge-Kutta matrix, as a mathematical
    /// sequence of sequences.
    pub closed spec fn a_rows(&self) -> Seq<Seq<u64>> {
        Seq::new(self.a@.len(), |k: int| self.a@[k]@)
    }

    /// The stored primary solution weights, as a mathematical sequence.
    pub closed spec fn b_seq(&self) -> Seq<u64> {
        self.b@
    }

    /// The stored secondary-estimator weights, as a mathematical sequence.
    pub closed spec fn bhh_seq(&self) -> Seq<u64> {
        self.bhh@
    }

    /// The stored abscissae, as a mathematical sequence.
    pub closed spec fn c_seq(&self) -> Seq<u64> {
        self.c@
    }

    /// The rows of the stored dense-output table, as a mathematical
    /// sequence of sequences.
    pub closed spec fn d_rows(&self) -> Seq<Seq<u64>> {
        Seq::new(self.d@.len(), |k: int| self.d@[k]@)
    }

    /// The stored error-estimator weights, as a mathematical sequence.
    pub closed spec fn e_seq(&self) -> Seq<u64> {
        self.e@
    }

    /// A well-formed tableau holds exactly the published coefficient
    /// tables and the scheme metadata, nothing else.
    pub open spec fn wf(&self) -> bool {
        &&& self.stage_count() == 16
        &&& self.order_value() == 7
        &&& self.a_rows() == a_bits()
        &&& self.b_seq() == b_bits()
        &&& self.bhh_seq() == bhh_bits()
        &&& self.c_seq() == c_bits()
        &&& self.d_rows() == d_bits()
        &&& self.e_seq() == e_bits()
    }

    /// Builds the tableau.  Construction takes no input, cannot fail, and
    /// always yields the same value; the value is never mutated afterwards.
    pub fn new() -> (t: Dopri853)
        ensures
            t.wf(),
    {
        let a: Vec<Vec<u64>> = vec![
            // stage 2
            vec![
                0x3faaee6838dae63a,
            ],
            // stage 3
            vec![
                0x3f9432ce2aa42cac,
                0x3fae4c353ff64302,
            ],
            // stage 4
            vec![
                0x3f9e4c353ff64302,
                0x0000000000000000,
                0x3fb6b927eff8b241,
            ],
            // stage 5
            vec![
                0x3fcee50d7ecde9fa,
                0x0000000000000000,
                0xbfec4e3ab5ad1507,
                0x3fed983d7ac79ef5,
            ],
            // stage 6
            vec![
                0x3fa2f684bda12f68,
                0x0000000000000000,
                0x0000000000000000,
                0x3fc5ddb63bdb6d36,
                0x3fc00f533f66f19a,
            ],
            // stage 7
            vec![
                0x3fa3000000000000,
                0x0000000000000000,
                0x0000000000000000,
                0x3fc5cad30f3347ed,
                0x3faed4b3c332e04d,
                0xbf92000000000000,
            ],
            // stage 8
            vec![
                0x3fa2fdb8fee78792,
                0x0000000000000000,
                0x0000000000000000,
                0x3fc5cf23f6595d72,
                0x3fbb758640dea698,
                0xbf8f5fcc20fcd32f,
                0x3f80f1d92efb0b71,
            ],
            // stage 9
            vec![
                0x3fe3f8b78b985813,
                0x0000000000000000,
                0x0000000000000000,
                0xc00ae31bacc6bc8a,
                0xbfebc873f08e11f9,
                0x403b9793d88d1855,
                0x40342770f892ad69,
                0xc045beb4865c42f9,
            ],
            // stage 10
            vec![
                0x3fde9205e321b655,
                0x0000000000000000,
                0x0000000000000000,
                0xc003e7a8a34bd27f,
                0xbfe2e3a9968c93c8,
                0x40353ae4a6d655ee,
                0x402e8ef7b5f258b8,
                0xc040a4e418d711b9,
                0xbf94d1b3d9b4a876,
            ],
            // stage 11
            vec![
                0xbfedfd121f1d399b,
                0x0000000000000000,
                0x0000000000000000,
                0x4014bed869fb0b9d,
                0x3ff1768702792ea9,
                0xc0204cb0e2110c1c,
                0xc032852305e975a8,
                0x4036bd4f06cb863a,
                0x4003f2e777cf109d,
                0xc0085fc60d2b572c,
            ],
            // stage 12
            vec![
                0x40022fbd3b09fcdc,
                0x0000000000000000,
                0x0000000000000000,
                0xc02511a963cafe55,
                0xc00001c935ac72ac,
                0xc031f57c8eff3006,
                0x403bf2ea18b58a01,
                0xc006df3a7d1cec13,
                0xc021bee71a9f33a9,
                0x4028b89c42c81861,
                0x3fe496ac6253e202,
            ],
            // stage 13
            vec![
                0x0000000000000000,
                0x0000000000000000,
                0x0000000000000000,
                0x0000000000000000,
                0x0000000000000000,
                0x0000000000000000,
                0x0000000000000000,
                0x0000000000000000,
                0x0000000000000000,
                0x0000000000000000,
                0x0000000000000000,
                0x0000000000000000,
            ],
            // stage 14
            vec![
                0x3facc1fca2ceb148,
                0x0000000000000000,
                0x0000000000000000,
                0x0000000000000000,
                0x0000000000000000,
                0x0000000000000000,
                0x3fd03958f21a35b8,
                0xbfcf84c2c277c23e,
                0xbfbfcb02555c9def,
                0x3fc39f10ce2d1913,
                0x3f80cbb69b38652c,
                0x3f7eff840f396ba9,
                0xbf80fe8ab4fa4830,
            ],
            // stage 15
            vec![
                0x3fa04ca1897bdb63,
                0x0000000000000000,
                0x0000000000000000,
                0x0000000000000000,
                0x0000000000000000,
                0x3f9cfae9e5f59f45,
                0x3fab69db017c8cf9,
                0xbfac1ef72fc69469,
                0x0000000000000000,
                0x0000000000000000,
                0xbf1c6710eef6e153,
                0x3f39127a52d32320,
                0xbf36500e13e7149b,
                0x3fc21686b20cd989,
            ],
            // stage 16
            vec![
                0xbfdb7309792b6015,
                0x0000000000000000,
                0x0000000000000000,
                0x0000000000000000,
                0x0000000000000000,
                0xc012ca5d44afdc9a,
                0x401ebbd2c419eda3,
                0x401046a54457171c,
                0x3fd6d49e44edba44,
                0x0000000000000000,
                0x0000000000000000,
                0x0000000000000000,
                0xbf56ebeec24871d4,
                0x40079482a23f1996,
                0xc0224d4a6dca2222,
            ],
        ];
        let b: Vec<u64> = vec![
            0x3fabcc6368d1177c,
            0x0000000000000000,
            0x0000000000000000,
            0x0000000000000000,
            0x0000000000000000,
            0x4011cd1ed2ad5ae2,
            0x3ffe43a845d5ab9f,
            0xc017346ecf96af43,
            0x3fd3ea1df2f0eb98,
            0xbfc37a028f43b002,
            0x3fc9c657697fe72d,
            0x3fa6e44f50ab6bc2,
        ];
        let bhh: Vec<u64> = vec![
            0x3fcf3e7cf9f3e7d0,
            0x3fe77bac0cce5157,
            0x3f96969696969697,
        ];
        let c: Vec<u64> = vec![
            0x0000000000000000,
            0x3faaee6838dae63a,
            0x3fb432ce2aa42cac,
            0x3fbe4c353ff64302,
            0x3fd2068c499c08d9,
            0x3fd5555555555555,
            0x3fd0000000000000,
            0x3fd3b13b13b13b14,
            0x3fe4d74d74d74d75,
            0x3fe3333333333333,
            0x3feb6db6db6db6db,
            0x0000000000000000,
            0x0000000000000000,
            0x3fb999999999999a,
            0x3fc999999999999a,
            0x3fe8e38e38e38e39,
        ];
        let d: Vec<Vec<u64>> = vec![
            // dense-output row 4
            vec![
                0xc020db9dcc37c81b,
                0x0000000000000000,
                0x0000000000000000,
                0x0000000000000000,
                0x0000000000000000,
                0x3fe2228765f0a2eb,
                0xc0088d35a1175376,
                0x400313cca2e462ec,
                0x4000efafd3c0d1bd,
                0xbfebe2709a4ac0d3,
                0x4001ec6a759da28b,
                0x3fe435e4b2f53319,
                0xbfb6c81218b7f07c,
                0x40322604753358b4,
                0xc02263a6db60dfa1,
                0xc011be8052a2581d,
            ],
            // dense-output row 5
            vec![
                0x4024dae269ad44fc,
                0x0000000000000000,
                0x0000000000000000,
                0x0000000000000000,
                0x0000000000000000,
                0x406e49125d57ed67,
                0x4064a66a19b8434b,
                0xc07768bf81e14e35,
                0xc0361d194558cffb,
                0x401eef08f933a023,
                0xc03eac90d122c30d,
                0xc022aa0d032a0acd,
                0x402f64fc65250f7c,
                0xc03f23afedecfd53,
                0xc022b4b2806665ca,
                0x4041e88e43070a10,
            ],
            // dense-output row 6
            vec![
                0x4033fc2c7303381f,
                0x0000000000000000,
                0x0000000000000000,
                0x0000000000000000,
                0x0000000000000000,
                0xc0783098d10f2521,
                0xc067a5b34edf4d39,
                0x40807e771c2c6a0c,
                0xc02725d68dc06f96,
                0x401b8661dd0f8bd7,
                0xbff0027a7d67fc68,
                0x3fe8e308023d3331,
                0xc00639c3efff56d2,
                0xc04e192d4f30c77f,
                0x40551481861928c0,
                0x4027fc0d95740812,
            ],
            // dense-output row 7
            vec![
                0xc039b1a59f97e9a3,
                0x0000000000000000,
                0x0000000000000000,
                0x0000000000000000,
                0x0000000000000000,
                0xc06346126bd860c7,
                0xc06cf0f0ac990990,
                0x40765a39d3b3c602,
                0x405759f0d4d83c70,
                0xc042baaa552107ab,
                0x405a0660a855838e,
                0x403dd71d78528cf6,
                0xc045c4484e37f77e,
                0x405814c57df82010,
                0xc04396b082b5cd1e,
                0xc062b7423e1cb30d,
            ],
        ];
        let e: Vec<u64> = vec![
            0x3f8adeaea1607e1a,
            0x0000000000000000,
            0x0000000000000000,
            0x0000000000000000,
            0x0000000000000000,
            0xbff39a3da55ab5c3,
            0xbfdfba83bede8a72,
            0x3ffaa149f7eda509,
            0xbfd66bc9b10e7e71,
            0x3fd56330d0783989,
            0x3fb4f8eb54a31435,
            0xbf96e44f50ab6bc2,
            0x0000000000000000,
            0x0000000000000000,
            0x0000000000000000,
            0x0000000000000000,
        ];
        let t = Dopri853 { num_stages: 16, order: 7, a, b, bhh, c, d, e };
        proof {
            assert(t.a@[0]@ =~= a_bits()[0]);
            assert(t.a@[1]@ =~= a_bits()[1]);
            assert(t.a@[2]@ =~= a_bits()[2]);
            assert(t.a@[3]@ =~= a_bits()[3]);
            assert(t.a@[4]@ =~= a_bits()[4]);
            assert(t.a@[5]@ =~= a_bits()[5]);
            assert(t.a@[6]@ =~= a_bits()[6]);
            assert(t.a@[7]@ =~= a_bits()[7]);
            assert(t.a@[8]@ =~= a_bits()[8]);
            assert(t.a@[9]@ =~= a_bits()[9]);
            assert(t.a@[10]@ =~= a_bits()[10]);
            assert(t.a@[11]@ =~= a_bits()[11]);
            assert(t.a@[12]@ =~= a_bits()[12]);
            assert(t.a@[13]@ =~= a_bits()[13]);
            assert(t.a@[14]@ =~= a_bits()[14]);
            assert(t.a_rows() =~= a_bits());
            assert(t.b_seq() =~= b_bits());
            assert(t.bhh_seq() =~= bhh_bits());
            assert(t.c_seq() =~= c_bits());
            assert(t.d@[0]@ =~= d_bits()[0]);
            assert(t.d@[1]@ =~= d_bits()[1]);
            assert(t.d@[2]@ =~= d_bits()[2]);
            assert(t.d@[3]@ =~= d_bits()[3]);
            assert(t.d_rows() =~= d_bits());
            assert(t.e_seq() =~= e_bits());
        }
        t
    }

    /// Returns the Runge-Kutta matrix coefficient `a(i, j)` for subscripts
    /// `2 <= i <= 16`, `1 <= j < i`, and `None` for every other pair: the
    /// diagonal and upper triangle are structurally absent, never zero.
    pub fn a(&self, i: usize, j: usize) -> (r: Option<u64>)
        requires
            self.wf(),
        ensures
            a_valid(i as int, j as int) ==> r == Some(a_coeff(i as int, j as int)),
            !a_valid(i as int, j as int) ==> r is None,
    {
        if 2 <= i && i <= 16 && 1 <= j && j < i {
            proof {
                lemma_table_shapes();
                assert(self.a@[i - 2]@ == self.a_rows()[i - 2]);
            }
            Some(self.a[i - 2][j - 1])
        } else {
            None
        }
    }

    /// Returns the primary solution weight `b(i)` for `1 <= i <= 12`, and
    /// `None` for every other subscript: the last four stages contribute
    /// only to dense output, so `b` stops at stage 12.
    pub fn b(&self, i: usize) -> (r: Option<u64>)
        requires
            self.wf(),
        ensures
            b_valid(i as int) ==> r == Some(b_bits()[i as int - 1]),
            !b_valid(i as int) ==> r is None,
    {
        if 1 <= i && i <= 12 {
            proof {
                lemma_table_shapes();
            }
            Some(self.b[i - 1])
        } else {
            None
        }
    }

    /// Returns the secondary-estimator weight `bhh(i)` for `1 <= i <= 3`,
    /// and `None` for every other subscript.
    pub fn bhh(&self, i: usize) -> (r: Option<u64>)
        requires
            self.wf(),
        ensures
            bhh_valid(i as int) ==> r == Some(bhh_bits()[i as int - 1]),
            !bhh_valid(i as int) ==> r is None,
    {
        if 1 <= i && i <= 3 {
            proof {
                lemma_table_shapes();
            }
            Some(self.bhh[i - 1])
        } else {
            None
        }
    }

    /// Returns the stage abscissa `c(i)` for `1 <= i <= 16`, and `None`
    /// for every other subscript.
    pub fn c(&self, i: usize) -> (r: Option<u64>)
        requires
            self.wf(),
        ensures
            stage_valid(i as int) ==> r == Some(c_bits()[i as int - 1]),
            !stage_valid(i as int) ==> r is None,
    {
        if 1 <= i && i <= 16 {
            proof {
                lemma_table_shapes();
            }
            Some(self.c[i - 1])
        } else {
            None
        }
    }

    /// Returns the dense-output coefficient `d(i, j)` for rows
    /// `4 <= i <= 7` and stage columns `1 <= j <= 16`, and `None` for
    /// every other pair.
    pub fn d(&self, i: usize, j: usize) -> (r: Option<u64>)
        requires
            self.wf(),
        ensures
            d_valid(i as int, j as int) ==> r == Some(d_coeff(i as int, j as int)),
            !d_valid(i as int, j as int) ==> r is None,
    {
        if 4 <= i && i <= 7 && 1 <= j && j <= 16 {
            proof {
                lemma_table_shapes();
                assert(self.d@[i - 4]@ == self.d_rows()[i - 4]);
            }
            Some(self.d[i - 4][j - 1])
        } else {
            None
        }
    }

    /// Returns the error-estimator weight `e(i)` for `1 <= i <= 16`, and
    /// `None` for every other subscript.
    pub fn e(&self, i: usize) -> (r: Option<u64>)
        requires
            self.wf(),
        ensures
            stage_valid(i as int) ==> r == Some(e_bits()[i as int - 1]),
            !stage_valid(i as int) ==> r is None,
    {
        if 1 <= i && i <= 16 {
            proof {
                lemma_table_shapes();
            }
            Some(self.e[i - 1])
        } else {
            None
        }
    }

    /// Returns the number of stages of the method, always 16.
    pub fn num_stages(&self) -> (r: usize)
        requires
            self.wf(),
        ensures
            r == 16,
    {
        self.num_stages
    }

    /// Returns the dense-output order of the method, always 7.
    pub fn order(&self) -> (r: i32)
        requires
            self.wf(),
        ensures
            r == 7,
    {
        self.order
    }
}

/// Construction is deterministic and pure: any two well-formed tableaux
/// hold identical coefficient tables and metadata, so reading the same
/// subscript from two separately constructed instances yields identical
/// values.
pub proof fn lemma_construction_deterministic(t1: &Dopri853, t2: &Dopri853)
    requires
        t1.wf(),
        t2.wf(),
    ensures
        t1.stage_count() == t2.stage_count(),
        t1.order_value() == t2.order_value(),
        t1.a_rows() == t2.a_rows(),
        t1.b_seq() == t2.b_seq(),
        t1.bhh_seq() == t2.bhh_seq(),
        t1.c_seq() == t2.c_seq(),
        t1.d_rows() == t2.d_rows(),
        t1.e_seq() == t2.e_seq(),
{
}

} // verus!
