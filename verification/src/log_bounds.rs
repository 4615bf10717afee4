//! Two fractions that enclose log₂ 10, proved by interval arithmetic along
//! its continued-fraction convergents.
//!
//! `BELOW_NUM / BELOW_DEN < log₂ 10 < ABOVE_NUM / ABOVE_DEN`, said with
//! integers: `2^BELOW_NUM < 10^BELOW_DEN` and `10^ABOVE_DEN < 2^ABOVE_NUM`.
//! The two fractions are neighbours, `ABOVE_NUM · BELOW_DEN − BELOW_NUM ·
//! ABOVE_DEN = 1`, so no fraction with a denominator below `BELOW_DEN +
//! ABOVE_DEN` lies strictly between them.
//!
//! The powers involved have billions of digits. The proof never writes them
//! down: it follows the ratios `10^q / 2^p` for the convergents `p / q` of
//! log₂ 10, each the product of earlier ones, and keeps every ratio between
//! two bounds with thirty decimal places.

use vstd::prelude::*;
use vstd::arithmetic::power::*;

verus! {

/// Numerator of the fraction just below log₂ 10.
pub const BELOW_NUM: u64 = 1_923_400_330;

/// Denominator of the fraction just below log₂ 10.
pub const BELOW_DEN: u64 = 579_001_193;

/// Numerator of the fraction just above log₂ 10.
pub const ABOVE_NUM: u64 = 3_501_739_887;

/// Denominator of the fraction just above log₂ 10.
pub const ABOVE_DEN: u64 = 1_054_128_743;

/// Denominator of the fixed-point bounds: thirty decimal places.
pub open spec fn scale() -> int {
    1_000_000_000_000_000_000_000_000_000_000
}

/// `lo / scale() <= 10^q / 2^p <= hi / scale()`, written without division.
pub open spec fn ratio_within(p: nat, q: nat, lo: int, hi: int) -> bool {
    &&& lo * pow(2, p) <= scale() * pow(10, q)
    &&& scale() * pow(10, q) <= hi * pow(2, p)
}

/// Bounds on two ratios multiply to bounds on the ratio with both exponents
/// added, once the products are rounded outwards to the scale.
pub proof fn lemma_ratio_product(
    p1: nat,
    q1: nat,
    lo1: int,
    hi1: int,
    p2: nat,
    q2: nat,
    lo2: int,
    hi2: int,
    lo: int,
    hi: int,
)
    requires
        ratio_within(p1, q1, lo1, hi1),
        ratio_within(p2, q2, lo2, hi2),
        0 <= lo1,
        0 <= lo2,
        lo * scale() <= lo1 * lo2,
        hi1 * hi2 <= hi * scale(),
    ensures
        ratio_within(p1 + p2, q1 + q2, lo, hi),
{
    let s = scale();
    let x1 = pow(2, p1);
    let x2 = pow(2, p2);
    let y1 = pow(10, q1);
    let y2 = pow(10, q2);
    lemma_pow_positive(2, p1);
    lemma_pow_positive(2, p2);
    lemma_pow_positive(10, q1);
    lemma_pow_positive(10, q2);
    lemma_pow_adds(2, p1, p2);
    lemma_pow_adds(10, q1, q2);
    assert(lo * (x1 * x2) <= s * (y1 * y2)) by (nonlinear_arith)
        requires
            0 < s,
            0 < x1,
            0 < x2,
            0 < y1,
            0 < y2,
            0 <= lo1,
            0 <= lo2,
            lo1 * x1 <= s * y1,
            lo2 * x2 <= s * y2,
            lo * s <= lo1 * lo2,
    {
        assert((lo1 * x1) * (lo2 * x2) <= (s * y1) * (s * y2));
        assert((lo * s) * (x1 * x2) <= (lo1 * lo2) * (x1 * x2));
        assert(s * (lo * (x1 * x2)) <= s * (s * (y1 * y2)));
    }
    assert(s * (y1 * y2) <= hi * (x1 * x2)) by (nonlinear_arith)
        requires
            0 < s,
            0 < x1,
            0 < x2,
            0 < y1,
            0 < y2,
            s * y1 <= hi1 * x1,
            s * y2 <= hi2 * x2,
            hi1 * hi2 <= hi * s,
    {
        assert(0 < hi1 * x1);
        assert(0 < hi1);
        assert(0 < hi2 * x2);
        assert(0 < hi2);
        assert((s * y1) * (s * y2) <= (hi1 * x1) * (hi2 * x2));
        assert((hi1 * hi2) * (x1 * x2) <= (hi * s) * (x1 * x2));
        assert(s * (s * (y1 * y2)) <= s * (hi * (x1 * x2)));
    }
}

/// 10⁰ / 2¹ is exactly one half.
proof fn lemma_ratio_1_0()
    ensures
        ratio_within(1, 0, 500000000000000000000000000000, 500000000000000000000000000000),
{
    reveal_with_fuel(pow, 2);
}

/// 10¹ / 2³ is exactly five quarters.
proof fn lemma_ratio_3_1()
    ensures
        ratio_within(3, 1, 1250000000000000000000000000000, 1250000000000000000000000000000),
{
    reveal_with_fuel(pow, 4);
}

/// Bounds on 10^3 / 2^10, from the two convergents before it.
proof fn lemma_ratio_10_3()
    ensures
        ratio_within(10, 3, 976562500000000000000000000000, 976562500000000000000000000000),
{
    lemma_ratio_1_0();
    lemma_ratio_3_1();
    lemma_ratio_product(
        1, 0, 500000000000000000000000000000, 500000000000000000000000000000,
        3, 1, 1250000000000000000000000000000, 1250000000000000000000000000000,
        625000000000000000000000000000, 625000000000000000000000000000,
    );
    lemma_ratio_product(
        4, 1, 625000000000000000000000000000, 625000000000000000000000000000,
        3, 1, 1250000000000000000000000000000, 1250000000000000000000000000000,
        781250000000000000000000000000, 781250000000000000000000000000,
    );
    lemma_ratio_product(
        7, 2, 781250000000000000000000000000, 781250000000000000000000000000,
        3, 1, 1250000000000000000000000000000, 1250000000000000000000000000000,
        976562500000000000000000000000, 976562500000000000000000000000,
    );
}

/// Bounds on 10^28 / 2^93, from the two convergents before it.
proof fn lemma_ratio_93_28()
    ensures
        ratio_within(93, 28, 1009741958682895110927012563559, 1009741958682895110927012563564),
{
    lemma_ratio_3_1();
    lemma_ratio_10_3();
    lemma_ratio_product(
        3, 1, 1250000000000000000000000000000, 1250000000000000000000000000000,
        10, 3, 976562500000000000000000000000, 976562500000000000000000000000,
        1220703125000000000000000000000, 1220703125000000000000000000000,
    );
    lemma_ratio_product(
        13, 4, 1220703125000000000000000000000, 1220703125000000000000000000000,
        10, 3, 976562500000000000000000000000, 976562500000000000000000000000,
        1192092895507812500000000000000, 1192092895507812500000000000000,
    );
    lemma_ratio_product(
        23, 7, 1192092895507812500000000000000, 1192092895507812500000000000000,
        10, 3, 976562500000000000000000000000, 976562500000000000000000000000,
        1164153218269348144531250000000, 1164153218269348144531250000000,
    );
    lemma_ratio_product(
        33, 10, 1164153218269348144531250000000, 1164153218269348144531250000000,
        10, 3, 976562500000000000000000000000, 976562500000000000000000000000,
        1136868377216160297393798828125, 1136868377216160297393798828125,
    );
    lemma_ratio_product(
        43, 13, 1136868377216160297393798828125, 1136868377216160297393798828125,
        10, 3, 976562500000000000000000000000, 976562500000000000000000000000,
        1110223024625156540423631668090, 1110223024625156540423631668091,
    );
    lemma_ratio_product(
        53, 16, 1110223024625156540423631668090, 1110223024625156540423631668091,
        10, 3, 976562500000000000000000000000, 976562500000000000000000000000,
        1084202172485504434007452800869, 1084202172485504434007452800871,
    );
    lemma_ratio_product(
        63, 19, 1084202172485504434007452800869, 1084202172485504434007452800871,
        10, 3, 976562500000000000000000000000, 976562500000000000000000000000,
        1058791184067875423835403125848, 1058791184067875423835403125851,
    );
    lemma_ratio_product(
        73, 22, 1058791184067875423835403125848, 1058791184067875423835403125851,
        10, 3, 976562500000000000000000000000, 976562500000000000000000000000,
        1033975765691284593589260865085, 1033975765691284593589260865089,
    );
    lemma_ratio_product(
        83, 25, 1033975765691284593589260865085, 1033975765691284593589260865089,
        10, 3, 976562500000000000000000000000, 976562500000000000000000000000,
        1009741958682895110927012563559, 1009741958682895110927012563564,
    );
}

/// Bounds on 10^59 / 2^196, from the two convergents before it.
proof fn lemma_ratio_196_59()
    ensures
        ratio_within(196, 59, 995682444457782673143050248598, 995682444457782673143050248610),
{
    lemma_ratio_10_3();
    lemma_ratio_93_28();
    lemma_ratio_product(
        10, 3, 976562500000000000000000000000, 976562500000000000000000000000,
        93, 28, 1009741958682895110927012563559, 1009741958682895110927012563564,
        986076131526264756764660706600, 986076131526264756764660706606,
    );
    lemma_ratio_product(
        103, 31, 986076131526264756764660706600, 986076131526264756764660706606,
        93, 28, 1009741958682895110927012563559, 1009741958682895110927012563564,
        995682444457782673143050248598, 995682444457782673143050248610,
    );
}

/// Bounds on 10^146 / 2^485, from the two convergents before it.
proof fn lemma_ratio_485_146()
    ensures
        ratio_within(485, 146, 1001041547591550462214792607551, 1001041547591550462214792607582),
{
    lemma_ratio_93_28();
    lemma_ratio_196_59();
    lemma_ratio_product(
        93, 28, 1009741958682895110927012563559, 1009741958682895110927012563564,
        196, 59, 995682444457782673143050248598, 995682444457782673143050248610,
        1005382341692974398074014096371, 1005382341692974398074014096389,
    );
    lemma_ratio_product(
        289, 87, 1005382341692974398074014096371, 1005382341692974398074014096389,
        196, 59, 995682444457782673143050248598, 995682444457782673143050248610,
        1001041547591550462214792607551, 1001041547591550462214792607582,
    );
}

/// Bounds on 10^643 / 2^2136, from the two convergents before it.
proof fn lemma_ratio_2136_643()
    ensures
        ratio_within(2136, 643, 999837132392562928078563971648, 999837132392562928078563971788),
{
    lemma_ratio_196_59();
    lemma_ratio_485_146();
    lemma_ratio_product(
        196, 59, 995682444457782673143050248598, 995682444457782673143050248610,
        485, 146, 1001041547591550462214792607551, 1001041547591550462214792607582,
        996719495109756753551070281486, 996719495109756753551070281530,
    );
    lemma_ratio_product(
        681, 205, 996719495109756753551070281486, 996719495109756753551070281530,
        485, 146, 1001041547591550462214792607551, 1001041547591550462214792607582,
        997757625899339713399132465706, 997757625899339713399132465782,
    );
    lemma_ratio_product(
        1166, 351, 997757625899339713399132465706, 997757625899339713399132465782,
        485, 146, 1001041547591550462214792607551, 1001041547591550462214792607582,
        998796837951546277758692727055, 998796837951546277758692727163,
    );
    lemma_ratio_product(
        1651, 497, 998796837951546277758692727055, 998796837951546277758692727163,
        485, 146, 1001041547591550462214792607551, 1001041547591550462214792607582,
        999837132392562928078563971648, 999837132392562928078563971788,
    );
}

/// Bounds on 10^4004 / 2^13301, from the two convergents before it.
proof fn lemma_ratio_13301_4004()
    ensures
        ratio_within(13301, 4004, 1000063722356541366115523482306, 1000063722356541366115523483183),
{
    lemma_ratio_485_146();
    lemma_ratio_2136_643();
    lemma_ratio_product(
        485, 146, 1001041547591550462214792607551, 1001041547591550462214792607582,
        2136, 643, 999837132392562928078563971648, 999837132392562928078563971788,
        1000878510349749122624948805978, 1000878510349749122624948806150,
    );
    lemma_ratio_product(
        2621, 789, 1000878510349749122624948805978, 1000878510349749122624948806150,
        2136, 643, 999837132392562928078563971648, 999837132392562928078563971788,
        1000715499661433278358653936369, 1000715499661433278358653936682,
    );
    lemma_ratio_product(
        4757, 1432, 1000715499661433278358653936369, 1000715499661433278358653936682,
        2136, 643, 999837132392562928078563971648, 999837132392562928078563971788,
        1000552515522278226764169659691, 1000552515522278226764169660145,
    );
    lemma_ratio_product(
        6893, 2075, 1000552515522278226764169659691, 1000552515522278226764169660145,
        2136, 643, 999837132392562928078563971648, 999837132392562928078563971788,
        1000389557927959969543731402297, 1000389557927959969543731402892,
    );
    lemma_ratio_product(
        9029, 2718, 1000389557927959969543731402297, 1000389557927959969543731402892,
        2136, 643, 999837132392562928078563971648, 999837132392562928078563971788,
        1000226626874155212638831909427, 1000226626874155212638831910163,
    );
    lemma_ratio_product(
        11165, 3361, 1000226626874155212638831909427, 1000226626874155212638831910163,
        2136, 643, 999837132392562928078563971648, 999837132392562928078563971788,
        1000063722356541366115523482306, 1000063722356541366115523483183,
    );
}

/// Bounds on 10^8651 / 2^28738, from the two convergents before it.
proof fn lemma_ratio_28738_8651()
    ensures
        ratio_within(28738, 8651, 999964560408907552979148071079, 999964560408907552979148072975),
{
    lemma_ratio_2136_643();
    lemma_ratio_13301_4004();
    lemma_ratio_product(
        2136, 643, 999837132392562928078563971648, 999837132392562928078563971788,
        13301, 4004, 1000063722356541366115523482306, 1000063722356541366115523483183,
        999900844370796544049738895792, 999900844370796544049738896810,
    );
    lemma_ratio_product(
        15437, 4647, 999900844370796544049738895792, 999900844370796544049738896810,
        13301, 4004, 1000063722356541366115523482306, 1000063722356541366115523483183,
        999964560408907552979148071079, 999964560408907552979148072975,
    );
}

/// Bounds on 10^12655 / 2^42039, from the two convergents before it.
proof fn lemma_ratio_42039_12655()
    ensures
        ratio_within(42039, 12655, 1000028280507154659821539814060, 1000028280507154659821539816834),
{
    lemma_ratio_13301_4004();
    lemma_ratio_28738_8651();
    lemma_ratio_product(
        13301, 4004, 1000063722356541366115523482306, 1000063722356541366115523483183,
        28738, 8651, 999964560408907552979148071079, 999964560408907552979148072975,
        1000028280507154659821539814060, 1000028280507154659821539816834,
    );
}

/// Bounds on 10^21306 / 2^70777, from the two convergents before it.
proof fn lemma_ratio_70777_21306()
    ensures
        ratio_within(70777, 21306, 999992839913812603352521431005, 999992839913812603352521435675),
{
    lemma_ratio_28738_8651();
    lemma_ratio_42039_12655();
    lemma_ratio_product(
        28738, 8651, 999964560408907552979148071079, 999964560408907552979148072975,
        42039, 12655, 1000028280507154659821539814060, 1000028280507154659821539816834,
        999992839913812603352521431005, 999992839913812603352521435675,
    );
}

/// Bounds on 10^76573 / 2^254370, from the two convergents before it.
proof fn lemma_ratio_254370_76573()
    ensures
        ratio_within(254370, 76573, 1000006799794924349030875853822, 1000006799794924349030875870609),
{
    lemma_ratio_42039_12655();
    lemma_ratio_70777_21306();
    lemma_ratio_product(
        42039, 12655, 1000028280507154659821539814060, 1000028280507154659821539816834,
        70777, 21306, 999992839913812603352521431005, 999992839913812603352521435675,
        1000021120218476394523409392318, 1000021120218476394523409399763,
    );
    lemma_ratio_product(
        112816, 33961, 1000021120218476394523409392318, 1000021120218476394523409399763,
        70777, 21306, 999992839913812603352521431005, 999992839913812603352521435675,
        1000013959981066413288298929291, 1000013959981066413288298941407,
    );
    lemma_ratio_product(
        183593, 55267, 1000013959981066413288298929291, 1000013959981066413288298941407,
        70777, 21306, 999992839913812603352521431005, 999992839913812603352521435675,
        1000006799794924349030875853822, 1000006799794924349030875870609,
    );
}

/// Bounds on 10^97879 / 2^325147, from the two convergents before it.
proof fn lemma_ratio_325147_97879()
    ensures
        ratio_within(325147, 97879, 999999639660049834668435957374, 999999639660049834668435978832),
{
    lemma_ratio_70777_21306();
    lemma_ratio_254370_76573();
    lemma_ratio_product(
        70777, 21306, 999992839913812603352521431005, 999992839913812603352521435675,
        254370, 76573, 1000006799794924349030875853822, 1000006799794924349030875870609,
        999999639660049834668435957374, 999999639660049834668435978832,
    );
}

/// Bounds on 10^1838395 / 2^6107016, from the two convergents before it.
proof fn lemma_ratio_6107016_1838395()
    ensures
        ratio_within(6107016, 1838395, 1000000313651583456806492292528, 1000000313651583456806492695576),
{
    lemma_ratio_254370_76573();
    lemma_ratio_325147_97879();
    lemma_ratio_product(
        254370, 76573, 1000006799794924349030875853822, 1000006799794924349030875870609,
        325147, 97879, 999999639660049834668435957374, 999999639660049834668435978832,
        1000006439452523945935137406897, 1000006439452523945935137445143,
    );
    lemma_ratio_product(
        579517, 174452, 1000006439452523945935137406897, 1000006439452523945935137445143,
        325147, 97879, 999999639660049834668435957374, 999999639660049834668435978832,
        1000006079110253388602002667443, 1000006079110253388602002727148,
    );
    lemma_ratio_product(
        904664, 272331, 1000006079110253388602002667443, 1000006079110253388602002727148,
        325147, 97879, 999999639660049834668435957374, 999999639660049834668435978832,
        1000005718768112676984683019834, 1000005718768112676984683100998,
    );
    lemma_ratio_product(
        1229811, 370210, 1000005718768112676984683019834, 1000005718768112676984683100998,
        325147, 97879, 999999639660049834668435957374, 999999639660049834668435978832,
        1000005358426101811036389865304, 1000005358426101811036389967927,
    );
    lemma_ratio_product(
        1554958, 468089, 1000005358426101811036389865304, 1000005358426101811036389967927,
        325147, 97879, 999999639660049834668435957374, 999999639660049834668435978832,
        1000004998084220790710334621947, 1000004998084220790710334746029,
    );
    lemma_ratio_product(
        1880105, 565968, 1000004998084220790710334621947, 1000004998084220790710334746029,
        325147, 97879, 999999639660049834668435957374, 999999639660049834668435978832,
        1000004637742469615959728724717, 1000004637742469615959728870258,
    );
    lemma_ratio_product(
        2205252, 663847, 1000004637742469615959728724717, 1000004637742469615959728870258,
        325147, 97879, 999999639660049834668435957374, 999999639660049834668435978832,
        1000004277400848286737783625427, 1000004277400848286737783792427,
    );
    lemma_ratio_product(
        2530399, 761726, 1000004277400848286737783625427, 1000004277400848286737783792427,
        325147, 97879, 999999639660049834668435957374, 999999639660049834668435978832,
        1000003917059356802997710792750, 1000003917059356802997710981209,
    );
    lemma_ratio_product(
        2855546, 859605, 1000003917059356802997710792750, 1000003917059356802997710981209,
        325147, 97879, 999999639660049834668435957374, 999999639660049834668435978832,
        1000003556717995164692721712219, 1000003556717995164692721922137,
    );
    lemma_ratio_product(
        3180693, 957484, 1000003556717995164692721712219, 1000003556717995164692721922137,
        325147, 97879, 999999639660049834668435957374, 999999639660049834668435978832,
        1000003196376763371776027886226, 1000003196376763371776028117603,
    );
    lemma_ratio_product(
        3505840, 1055363, 1000003196376763371776027886226, 1000003196376763371776028117603,
        325147, 97879, 999999639660049834668435957374, 999999639660049834668435978832,
        1000002836035661424200840834025, 1000002836035661424200841086861,
    );
    lemma_ratio_product(
        3830987, 1153242, 1000002836035661424200840834025, 1000002836035661424200841086861,
        325147, 97879, 999999639660049834668435957374, 999999639660049834668435978832,
        1000002475694689321920372091727, 1000002475694689321920372366022,
    );
    lemma_ratio_product(
        4156134, 1251121, 1000002475694689321920372091727, 1000002475694689321920372366022,
        325147, 97879, 999999639660049834668435957374, 999999639660049834668435978832,
        1000002115353847064887833212305, 1000002115353847064887833508059,
    );
    lemma_ratio_product(
        4481281, 1349000, 1000002115353847064887833212305, 1000002115353847064887833508059,
        325147, 97879, 999999639660049834668435957374, 999999639660049834668435978832,
        1000001755013134653056435765590, 1000001755013134653056436082803,
    );
    lemma_ratio_product(
        4806428, 1446879, 1000001755013134653056435765590, 1000001755013134653056436082803,
        325147, 97879, 999999639660049834668435957374, 999999639660049834668435978832,
        1000001394672552086379391338274, 1000001394672552086379391676946,
    );
    lemma_ratio_product(
        5131575, 1544758, 1000001394672552086379391338274, 1000001394672552086379391676946,
        325147, 97879, 999999639660049834668435957374, 999999639660049834668435978832,
        1000001034332099364809911533908, 1000001034332099364809911894038,
    );
    lemma_ratio_product(
        5456722, 1642637, 1000001034332099364809911533908, 1000001034332099364809911894038,
        325147, 97879, 999999639660049834668435957374, 999999639660049834668435978832,
        1000000673991776488301207972902, 1000000673991776488301208354491,
    );
    lemma_ratio_product(
        5781869, 1740516, 1000000673991776488301207972902, 1000000673991776488301208354491,
        325147, 97879, 999999639660049834668435957374, 999999639660049834668435978832,
        1000000313651583456806492292528, 1000000313651583456806492695576,
    );
}

/// Bounds on 10^1936274 / 2^6432163, from the two convergents before it.
proof fn lemma_ratio_6432163_1936274()
    ensures
        ratio_within(6432163, 1936274, 999999953311520270278976146916, 999999953311520270278976571423),
{
    lemma_ratio_325147_97879();
    lemma_ratio_6107016_1838395();
    lemma_ratio_product(
        325147, 97879, 999999639660049834668435957374, 999999639660049834668435978832,
        6107016, 1838395, 1000000313651583456806492292528, 1000000313651583456806492695576,
        999999953311520270278976146916, 999999953311520270278976571423,
    );
}

/// Bounds on 10^13456039 / 2^44699994, from the two convergents before it.
proof fn lemma_ratio_44699994_13456039()
    ensures
        ratio_within(44699994, 13456039, 1000000033520649912207082842128, 1000000033520649912207085792224),
{
    lemma_ratio_6107016_1838395();
    lemma_ratio_6432163_1936274();
    lemma_ratio_product(
        6107016, 1838395, 1000000313651583456806492292528, 1000000313651583456806492695576,
        6432163, 1936274, 999999953311520270278976146916, 999999953311520270278976571423,
        1000000266963089083169872021432, 1000000266963089083169872848988,
    );
    lemma_ratio_product(
        12539179, 3774669, 1000000266963089083169872021432, 1000000266963089083169872848988,
        6432163, 1936274, 999999953311520270278976146916, 999999953311520270278976571423,
        1000000220274596889348074925063, 1000000220274596889348076177127,
    );
    lemma_ratio_product(
        18971342, 5710943, 1000000220274596889348074925063, 1000000220274596889348076177127,
        6432163, 1936274, 999999953311520270278976146916, 999999953311520270278976571423,
        1000000173586106875340999231181, 1000000173586106875341000907753,
    );
    lemma_ratio_product(
        25403505, 7647217, 1000000173586106875340999231181, 1000000173586106875341000907753,
        6432163, 1936274, 999999953311520270278976146916, 999999953311520270278976571423,
        1000000126897619041148543167551, 1000000126897619041148545268631,
    );
    lemma_ratio_product(
        31835668, 9583491, 1000000126897619041148543167551, 1000000126897619041148545268631,
        6432163, 1936274, 999999953311520270278976146916, 999999953311520270278976571423,
        1000000080209133386770604961942, 1000000080209133386770607487530,
    );
    lemma_ratio_product(
        38267831, 11519765, 1000000080209133386770604961942, 1000000080209133386770607487530,
        6432163, 1936274, 999999953311520270278976146916, 999999953311520270278976571423,
        1000000033520649912207082842128, 1000000033520649912207085792224,
    );
}

/// Bounds on 10^15392313 / 2^51132157, from the two convergents before it.
proof fn lemma_ratio_51132157_15392313()
    ensures
        ratio_within(51132157, 15392313, 999999986832168617457875035888, 999999986832168617457878410492),
{
    lemma_ratio_6432163_1936274();
    lemma_ratio_44699994_13456039();
    lemma_ratio_product(
        6432163, 1936274, 999999953311520270278976146916, 999999953311520270278976571423,
        44699994, 13456039, 1000000033520649912207082842128, 1000000033520649912207085792224,
        999999986832168617457875035888, 999999986832168617457878410492,
    );
}

/// Bounds on 10^44240665 / 2^146964308, from the two convergents before it.
proof fn lemma_ratio_146964308_44240665()
    ensures
        ratio_within(146964308, 44240665, 1000000007184986437726090290833, 1000000007184986437726099990139),
{
    lemma_ratio_44699994_13456039();
    lemma_ratio_51132157_15392313();
    lemma_ratio_product(
        44699994, 13456039, 1000000033520649912207082842128, 1000000033520649912207085792224,
        51132157, 15392313, 999999986832168617457875035888, 999999986832168617457878410492,
        1000000020352818088270692000847, 1000000020352818088270698325548,
    );
    lemma_ratio_product(
        95832151, 28848352, 1000000020352818088270692000847, 1000000020352818088270698325548,
        51132157, 15392313, 999999986832168617457875035888, 999999986832168617457878410492,
        1000000007184986437726090290833, 1000000007184986437726099990139,
    );
}

/// Bounds on 10^59632978 / 2^198096465, from the two convergents before it.
proof fn lemma_ratio_198096465_59632978()
    ensures
        ratio_within(198096465, 59632978, 999999994017154960573275428891, 999999994017154960573288502802),
{
    lemma_ratio_51132157_15392313();
    lemma_ratio_146964308_44240665();
    lemma_ratio_product(
        51132157, 15392313, 999999986832168617457875035888, 999999986832168617457878410492,
        146964308, 44240665, 1000000007184986437726090290833, 1000000007184986437726099990139,
        999999994017154960573275428891, 999999994017154960573288502802,
    );
}

/// Bounds on 10^103873643 / 2^345060773, from the two convergents before it.
proof fn lemma_ratio_345060773_103873643()
    ensures
        ratio_within(345060773, 103873643, 1000000001202141355312705252426, 1000000001202141355312728025644),
{
    lemma_ratio_146964308_44240665();
    lemma_ratio_198096465_59632978();
    lemma_ratio_product(
        146964308, 44240665, 1000000007184986437726090290833, 1000000007184986437726099990139,
        198096465, 59632978, 999999994017154960573275428891, 999999994017154960573288502802,
        1000000001202141355312705252426, 1000000001202141355312728025644,
    );
}

/// Bounds on 10^475127550 / 2^1578339557, from the two convergents before it.
proof fn lemma_ratio_1578339557_475127550()
    ensures
        ratio_within(1578339557, 475127550, 999999998825720361726057645294, 999999998825720361726161812081),
{
    lemma_ratio_198096465_59632978();
    lemma_ratio_345060773_103873643();
    lemma_ratio_product(
        198096465, 59632978, 999999994017154960573275428891, 999999994017154960573288502802,
        345060773, 103873643, 1000000001202141355312705252426, 1000000001202141355312728025644,
        999999995219296308693755236994, 999999995219296308693791084124,
    );
    lemma_ratio_product(
        543157238, 163506621, 999999995219296308693755236994, 999999995219296308693791084124,
        345060773, 103873643, 1000000001202141355312705252426, 1000000001202141355312728025644,
        999999996421437658259378874604, 999999996421437658259437494953,
    );
    lemma_ratio_product(
        888218011, 267380264, 999999996421437658259378874604, 999999996421437658259437494953,
        345060773, 103873643, 1000000001202141355312705252426, 1000000001202141355312728025644,
        999999997623579009270146343458, 999999997623579009270227737026,
    );
    lemma_ratio_product(
        1233278784, 371253907, 999999997623579009270146343458, 999999997623579009270227737026,
        345060773, 103873643, 1000000001202141355312705252426, 1000000001202141355312728025644,
        999999998825720361726057645294, 999999998825720361726161812081,
    );
}

/// Bounds on 10^579001193 / 2^1923400330, from the two convergents before it.
proof fn lemma_ratio_1923400330_579001193()
    ensures
        ratio_within(1923400330, 579001193, 1000000000027861715627112781849, 1000000000027861715627239721855),
{
    lemma_ratio_345060773_103873643();
    lemma_ratio_1578339557_475127550();
    lemma_ratio_product(
        345060773, 103873643, 1000000001202141355312705252426, 1000000001202141355312728025644,
        1578339557, 475127550, 999999998825720361726057645294, 999999998825720361726161812081,
        1000000000027861715627112781849, 1000000000027861715627239721855,
    );
}

/// `BELOW_NUM / BELOW_DEN` lies below log₂ 10.
pub proof fn lemma_log_lower()
    ensures
        pow(2, BELOW_NUM as nat) < pow(10, BELOW_DEN as nat),
{
    lemma_ratio_1923400330_579001193();
    lemma_pow_positive(2, 1923400330);
    let x = pow(2, 1923400330);
    let y = pow(10, 579001193);
    assert(x < y) by (nonlinear_arith)
        requires
            0 < x,
            1000000000027861715627112781849 * x <= 1000000000000000000000000000000 * y,
    ;
}

/// `ABOVE_NUM / ABOVE_DEN` lies above log₂ 10.
pub proof fn lemma_log_upper()
    ensures
        pow(10, ABOVE_DEN as nat) < pow(2, ABOVE_NUM as nat),
{
    lemma_ratio_1578339557_475127550();
    lemma_ratio_1923400330_579001193();
    lemma_ratio_product(
        1578339557, 475127550, 999999998825720361726057645294, 999999998825720361726161812081,
        1923400330, 579001193, 1000000000027861715627112781849, 1000000000027861715627239721855,
        999999998853582077320452981794, 999999998853582077320684088588,
    );
    lemma_pow_positive(2, 3501739887);
    let x = pow(2, 3501739887);
    let y = pow(10, 1054128743);
    assert(y < x) by (nonlinear_arith)
        requires
            0 < x,
            1000000000000000000000000000000 * y <= 999999998853582077320684088588 * x,
    ;
}

/// The two fractions are neighbours: their cross difference is one.
pub proof fn lemma_log_bounds_adjacent()
    ensures
        ABOVE_NUM * BELOW_DEN - BELOW_NUM * ABOVE_DEN == 1,
{
}

} // verus!
