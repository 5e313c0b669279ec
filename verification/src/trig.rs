use vstd::prelude::*;

verus! {

/// Quarter-wave sine table: `sin(i degrees)` scaled by `2^24`, for
/// `i` in `0..=90`.  The animation visuals are defined entirely by this
/// numeric content.
pub const SINE_LUT: [i32; 91] = [
    0, 292802, 585516, 878051, 1170319, 1462230,
    1753696, 2044628, 2334937, 2624534, 2913332, 3201243,
    3488179, 3774052, 4058775, 4342263, 4624427, 4905183,
    5184444, 5462127, 5738145, 6012416, 6284855, 6555380,
    6823908, 7090357, 7354647, 7616696, 7876425, 8133755,
    8388607, 8640905, 8890569, 9137526, 9381700, 9623015,
    9861400, 10096780, 10329085, 10558244, 10784186, 11006844,
    11226148, 11442033, 11654433, 11863283, 12068519, 12270079,
    12467901, 12661925, 12852093, 13038345, 13220626, 13398880,
    13573052, 13743090, 13908942, 14070557, 14227886, 14380880,
    14529495, 14673683, 14813402, 14948608, 15079261, 15205321,
    15326749, 15443508, 15555563, 15662880, 15765426, 15863169,
    15956080, 16044131, 16127295, 16205546, 16278860, 16347217,
    16410593, 16468971, 16522332, 16570660, 16613941, 16652161,
    16685308, 16713373, 16736347, 16754223, 16766995, 16774660,
    16777216,
];

/// The table's largest entry, `sin(90 degrees) << 24`.
pub const SINE_MAX: i32 = 16777216;

/// Fixed-point sine of an angle in degrees, scaled by `2^24`: the angle is
/// reduced modulo 360, the quarter-wave table covers `0..=90`, a mirror
/// covers `91..=180`, and negation covers the second half period.
pub open spec fn spec_sin(deg: int) -> int {
    let d: int = deg % 360;
    if d <= 90 {
        SINE_LUT@[d] as int
    } else if d <= 180 {
        SINE_LUT@[180 - d] as int
    } else if d <= 270 {
        -(SINE_LUT@[d - 180] as int)
    } else {
        -(SINE_LUT@[360 - d] as int)
    }
}

/// Reduces an angle in degrees to `0..360`, the mathematical remainder.
fn wrap360(deg: i32) -> (r: i32)
    ensures
        0 <= r < 360,
        r == (deg as int) % 360,
{
    if deg >= 0 {
        deg % 360
    } else {
        let m: i32 = deg % 360;
        proof {
            let di: int = deg as int;
            assert((-di) % 360 == 0 ==> di % 360 == 0) by (nonlinear_arith)
                requires
                    di < 0,
            ;
            assert((-di) % 360 != 0 ==> di % 360 == 360 - ((-di) % 360)) by (nonlinear_arith)
                requires
                    di < 0,
            ;
        }
        if m == 0 {
            0
        } else {
            m + 360
        }
    }
}

/// Fixed-point sine lookup, `sin(deg degrees) << 24`.
pub fn sin(deg: i32) -> (r: i32)
    ensures
        r == spec_sin(deg as int),
{
    let d: i32 = wrap360(deg);
    if d <= 90 {
        SINE_LUT[d as usize]
    } else if d <= 180 {
        SINE_LUT[(180 - d) as usize]
    } else if d <= 270 {
        -SINE_LUT[(d - 180) as usize]
    } else {
        -SINE_LUT[(360 - d) as usize]
    }
}

/// Sine agrees with its reduction modulo 360, for any angle, negative ones
/// included.
pub proof fn lemma_sin_periodic(deg: int)
    ensures
        spec_sin(deg) == spec_sin(deg % 360),
{
    assert((deg % 360) % 360 == deg % 360) by (nonlinear_arith);
}

/// The cardinal values of the sine table: zero at 0 and 180 degrees, the
/// table's largest entry at 90, and its negation at 270.
pub proof fn lemma_sin_cardinal()
    ensures
        spec_sin(0) == 0,
        spec_sin(90) == SINE_MAX,
        spec_sin(90) == SINE_LUT@[90],
        forall|j: int| 0 <= j <= 90 ==> #[trigger] SINE_LUT@[j] <= spec_sin(90),
        spec_sin(180) == 0,
        spec_sin(270) == -spec_sin(90),
{
}

/// Every sine value fits the table's scale: `-SINE_MAX ..= SINE_MAX`.
pub proof fn lemma_sin_bounds(d: int)
    ensures
        -SINE_MAX <= spec_sin(d) <= SINE_MAX,
{
    assert(forall|j: int| 0 <= j <= 90 ==> 0 <= #[trigger] SINE_LUT@[j] <= 16777216);
}

/// Quantized ring index for a squared distance `s`: the precomputed
/// thresholds map `s` to the integer `d` whose band
/// `d*d - d + 1 ..= d*d + d - 1` contains it; squared distances that fall
/// between two bands, and anything past the last band, map to 100.
pub open spec fn dist_of_sq(s: int) -> int {
    if s == 0 {
        0
    } else if 1 <= s <= 1 {
        1
    } else if 3 <= s <= 5 {
        2
    } else if 7 <= s <= 11 {
        3
    } else if 13 <= s <= 19 {
        4
    } else if 21 <= s <= 29 {
        5
    } else if 31 <= s <= 41 {
        6
    } else if 43 <= s <= 55 {
        7
    } else if 57 <= s <= 71 {
        8
    } else if 73 <= s <= 89 {
        9
    } else if 91 <= s <= 109 {
        10
    } else if 111 <= s <= 131 {
        11
    } else if 133 <= s <= 155 {
        12
    } else if 157 <= s <= 181 {
        13
    } else if 183 <= s <= 209 {
        14
    } else if 211 <= s <= 239 {
        15
    } else if 241 <= s <= 271 {
        16
    } else if 273 <= s <= 305 {
        17
    } else if 307 <= s <= 341 {
        18
    } else if 343 <= s <= 379 {
        19
    } else if 381 <= s <= 419 {
        20
    } else if 421 <= s <= 461 {
        21
    } else if 463 <= s <= 505 {
        22
    } else if 507 <= s <= 551 {
        23
    } else if 553 <= s <= 599 {
        24
    } else if 601 <= s <= 649 {
        25
    } else if 651 <= s <= 701 {
        26
    } else if 703 <= s <= 755 {
        27
    } else if 757 <= s <= 811 {
        28
    } else if 813 <= s <= 869 {
        29
    } else if 871 <= s <= 929 {
        30
    } else if 931 <= s <= 991 {
        31
    } else if 993 <= s <= 1055 {
        32
    } else if 1057 <= s <= 1121 {
        33
    } else if 1123 <= s <= 1189 {
        34
    } else if 1191 <= s <= 1259 {
        35
    } else if 1261 <= s <= 1331 {
        36
    } else if 1333 <= s <= 1405 {
        37
    } else if 1407 <= s <= 1481 {
        38
    } else if 1483 <= s <= 1559 {
        39
    } else if 1561 <= s <= 1639 {
        40
    } else if 1641 <= s <= 1721 {
        41
    } else if 1723 <= s <= 1805 {
        42
    } else if 1807 <= s <= 1891 {
        43
    } else if 1893 <= s <= 1979 {
        44
    } else if 1981 <= s <= 2069 {
        45
    } else if 2071 <= s <= 2161 {
        46
    } else if 2163 <= s <= 2255 {
        47
    } else if 2257 <= s <= 2351 {
        48
    } else if 2353 <= s <= 2449 {
        49
    } else if 2451 <= s <= 2549 {
        50
    } else if 2551 <= s <= 2651 {
        51
    } else if 2653 <= s <= 2755 {
        52
    } else if 2757 <= s <= 2861 {
        53
    } else if 2863 <= s <= 2969 {
        54
    } else if 2971 <= s <= 3079 {
        55
    } else if 3081 <= s <= 3191 {
        56
    } else if 3193 <= s <= 3305 {
        57
    } else if 3307 <= s <= 3421 {
        58
    } else if 3423 <= s <= 3539 {
        59
    } else if 3541 <= s <= 3659 {
        60
    } else if 3661 <= s <= 3781 {
        61
    } else if 3783 <= s <= 3905 {
        62
    } else if 3907 <= s <= 4031 {
        63
    } else if 4033 <= s <= 4159 {
        64
    } else if 4161 <= s <= 4289 {
        65
    } else if 4291 <= s <= 4421 {
        66
    } else if 4423 <= s <= 4555 {
        67
    } else if 4557 <= s <= 4691 {
        68
    } else if 4693 <= s <= 4829 {
        69
    } else if 4831 <= s <= 4969 {
        70
    } else if 4971 <= s <= 5111 {
        71
    } else if 5113 <= s <= 5255 {
        72
    } else if 5257 <= s <= 5401 {
        73
    } else if 5403 <= s <= 5549 {
        74
    } else if 5551 <= s <= 5699 {
        75
    } else if 5701 <= s <= 5851 {
        76
    } else if 5853 <= s <= 6005 {
        77
    } else if 6007 <= s <= 6161 {
        78
    } else if 6163 <= s <= 6319 {
        79
    } else if 6321 <= s <= 6479 {
        80
    } else if 6481 <= s <= 6641 {
        81
    } else if 6643 <= s <= 6805 {
        82
    } else if 6807 <= s <= 6971 {
        83
    } else if 6973 <= s <= 7139 {
        84
    } else if 7141 <= s <= 7309 {
        85
    } else if 7311 <= s <= 7481 {
        86
    } else if 7483 <= s <= 7655 {
        87
    } else if 7657 <= s <= 7831 {
        88
    } else if 7833 <= s <= 8009 {
        89
    } else if 8011 <= s <= 8189 {
        90
    } else if 8191 <= s <= 8371 {
        91
    } else if 8373 <= s <= 8555 {
        92
    } else if 8557 <= s <= 8741 {
        93
    } else if 8743 <= s <= 8929 {
        94
    } else if 8931 <= s <= 9119 {
        95
    } else if 9121 <= s <= 9311 {
        96
    } else if 9313 <= s <= 9505 {
        97
    } else if 9507 <= s <= 9701 {
        98
    } else if 9703 <= s <= 9899 {
        99
    } else {
        100
    }
}

/// Integer-distance approximation of `sqrt(dx*dx + dy*dy)` by precomputed
/// thresholds on the squared distance.
pub fn distance(dx: i32, dy: i32) -> (r: i32)
    requires
        -30000 <= dx <= 30000,
        -30000 <= dy <= 30000,
    ensures
        r == dist_of_sq(dx * dx + dy * dy),
        0 <= r <= 100,
{
    proof {
        assert(0 <= dx * dx <= 900000000) by (nonlinear_arith)
            requires
                -30000 <= dx <= 30000,
        ;
        assert(0 <= dy * dy <= 900000000) by (nonlinear_arith)
            requires
                -30000 <= dy <= 30000,
        ;
    }
    let s: i32 = dx * dx + dy * dy;
    if s == 0 {
            0
        } else if 1 <= s && s <= 1 {
            1
        } else if 3 <= s && s <= 5 {
            2
        } else if 7 <= s && s <= 11 {
            3
        } else if 13 <= s && s <= 19 {
            4
        } else if 21 <= s && s <= 29 {
            5
        } else if 31 <= s && s <= 41 {
            6
        } else if 43 <= s && s <= 55 {
            7
        } else if 57 <= s && s <= 71 {
            8
        } else if 73 <= s && s <= 89 {
            9
        } else if 91 <= s && s <= 109 {
            10
        } else if 111 <= s && s <= 131 {
            11
        } else if 133 <= s && s <= 155 {
            12
        } else if 157 <= s && s <= 181 {
            13
        } else if 183 <= s && s <= 209 {
            14
        } else if 211 <= s && s <= 239 {
            15
        } else if 241 <= s && s <= 271 {
            16
        } else if 273 <= s && s <= 305 {
            17
        } else if 307 <= s && s <= 341 {
            18
        } else if 343 <= s && s <= 379 {
            19
        } else if 381 <= s && s <= 419 {
            20
        } else if 421 <= s && s <= 461 {
            21
        } else if 463 <= s && s <= 505 {
            22
        } else if 507 <= s && s <= 551 {
            23
        } else if 553 <= s && s <= 599 {
            24
        } else if 601 <= s && s <= 649 {
            25
        } else if 651 <= s && s <= 701 {
            26
        } else if 703 <= s && s <= 755 {
            27
        } else if 757 <= s && s <= 811 {
            28
        } else if 813 <= s && s <= 869 {
            29
        } else if 871 <= s && s <= 929 {
            30
        } else if 931 <= s && s <= 991 {
            31
        } else if 993 <= s && s <= 1055 {
            32
        } else if 1057 <= s && s <= 1121 {
            33
        } else if 1123 <= s && s <= 1189 {
            34
        } else if 1191 <= s && s <= 1259 {
            35
        } else if 1261 <= s && s <= 1331 {
            36
        } else if 1333 <= s && s <= 1405 {
            37
        } else if 1407 <= s && s <= 1481 {
            38
        } else if 1483 <= s && s <= 1559 {
            39
        } else if 1561 <= s && s <= 1639 {
            40
        } else if 1641 <= s && s <= 1721 {
            41
        } else if 1723 <= s && s <= 1805 {
            42
        } else if 1807 <= s && s <= 1891 {
            43
        } else if 1893 <= s && s <= 1979 {
            44
        } else if 1981 <= s && s <= 2069 {
            45
        } else if 2071 <= s && s <= 2161 {
            46
        } else if 2163 <= s && s <= 2255 {
            47
        } else if 2257 <= s && s <= 2351 {
            48
        } else if 2353 <= s && s <= 2449 {
            49
        } else if 2451 <= s && s <= 2549 {
            50
        } else if 2551 <= s && s <= 2651 {
            51
        } else if 2653 <= s && s <= 2755 {
            52
        } else if 2757 <= s && s <= 2861 {
            53
        } else if 2863 <= s && s <= 2969 {
            54
        } else if 2971 <= s && s <= 3079 {
            55
        } else if 3081 <= s && s <= 3191 {
            56
        } else if 3193 <= s && s <= 3305 {
            57
        } else if 3307 <= s && s <= 3421 {
            58
        } else if 3423 <= s && s <= 3539 {
            59
        } else if 3541 <= s && s <= 3659 {
            60
        } else if 3661 <= s && s <= 3781 {
            61
        } else if 3783 <= s && s <= 3905 {
            62
        } else if 3907 <= s && s <= 4031 {
            63
        } else if 4033 <= s && s <= 4159 {
            64
        } else if 4161 <= s && s <= 4289 {
            65
        } else if 4291 <= s && s <= 4421 {
            66
        } else if 4423 <= s && s <= 4555 {
            67
        } else if 4557 <= s && s <= 4691 {
            68
        } else if 4693 <= s && s <= 4829 {
            69
        } else if 4831 <= s && s <= 4969 {
            70
        } else if 4971 <= s && s <= 5111 {
            71
        } else if 5113 <= s && s <= 5255 {
            72
        } else if 5257 <= s && s <= 5401 {
            73
        } else if 5403 <= s && s <= 5549 {
            74
        } else if 5551 <= s && s <= 5699 {
            75
        } else if 5701 <= s && s <= 5851 {
            76
        } else if 5853 <= s && s <= 6005 {
            77
        } else if 6007 <= s && s <= 6161 {
            78
        } else if 6163 <= s && s <= 6319 {
            79
        } else if 6321 <= s && s <= 6479 {
            80
        } else if 6481 <= s && s <= 6641 {
            81
        } else if 6643 <= s && s <= 6805 {
            82
        } else if 6807 <= s && s <= 6971 {
            83
        } else if 6973 <= s && s <= 7139 {
            84
        } else if 7141 <= s && s <= 7309 {
            85
        } else if 7311 <= s && s <= 7481 {
            86
        } else if 7483 <= s && s <= 7655 {
            87
        } else if 7657 <= s && s <= 7831 {
            88
        } else if 7833 <= s && s <= 8009 {
            89
        } else if 8011 <= s && s <= 8189 {
            90
        } else if 8191 <= s && s <= 8371 {
            91
        } else if 8373 <= s && s <= 8555 {
            92
        } else if 8557 <= s && s <= 8741 {
            93
        } else if 8743 <= s && s <= 8929 {
            94
        } else if 8931 <= s && s <= 9119 {
            95
        } else if 9121 <= s && s <= 9311 {
            96
        } else if 9313 <= s && s <= 9505 {
            97
        } else if 9507 <= s && s <= 9701 {
            98
        } else if 9703 <= s && s <= 9899 {
            99
        } else {
            100
        }
}

/// Inclusive lower edge of ring `d`'s squared-distance band.
pub open spec fn dist_band_lo(d: int) -> int {
    d * d - d + 1
}

/// Inclusive upper edge of ring `d`'s squared-distance band.
pub open spec fn dist_band_hi(d: int) -> int {
    d * d + d - 1
}

/// Where the lookup lands: zero exactly at zero, ring `d` exactly on its
/// band, and 100 past the last band (and on the between-band gaps).
#[verifier::rlimit(100)]
pub proof fn lemma_dist_characterize(s: int)
    requires
        0 <= s,
    ensures
        0 <= dist_of_sq(s) <= 100,
        dist_of_sq(s) == 0 <==> s == 0,
        1 <= dist_of_sq(s) <= 99 ==> dist_band_lo(dist_of_sq(s)) <= s <= dist_band_hi(
            dist_of_sq(s),
        ),
        s >= 9900 ==> dist_of_sq(s) == 100,
{
    assert(dist_band_lo(1) == 1 && dist_band_hi(1) == 1);
    assert(dist_band_lo(2) == 3 && dist_band_hi(2) == 5);
    assert(dist_band_lo(3) == 7 && dist_band_hi(3) == 11);
    assert(dist_band_lo(4) == 13 && dist_band_hi(4) == 19);
    assert(dist_band_lo(5) == 21 && dist_band_hi(5) == 29);
    assert(dist_band_lo(6) == 31 && dist_band_hi(6) == 41);
    assert(dist_band_lo(7) == 43 && dist_band_hi(7) == 55);
    assert(dist_band_lo(8) == 57 && dist_band_hi(8) == 71);
    assert(dist_band_lo(9) == 73 && dist_band_hi(9) == 89);
    assert(dist_band_lo(10) == 91 && dist_band_hi(10) == 109);
    assert(dist_band_lo(11) == 111 && dist_band_hi(11) == 131);
    assert(dist_band_lo(12) == 133 && dist_band_hi(12) == 155);
    assert(dist_band_lo(13) == 157 && dist_band_hi(13) == 181);
    assert(dist_band_lo(14) == 183 && dist_band_hi(14) == 209);
    assert(dist_band_lo(15) == 211 && dist_band_hi(15) == 239);
    assert(dist_band_lo(16) == 241 && dist_band_hi(16) == 271);
    assert(dist_band_lo(17) == 273 && dist_band_hi(17) == 305);
    assert(dist_band_lo(18) == 307 && dist_band_hi(18) == 341);
    assert(dist_band_lo(19) == 343 && dist_band_hi(19) == 379);
    assert(dist_band_lo(20) == 381 && dist_band_hi(20) == 419);
    assert(dist_band_lo(21) == 421 && dist_band_hi(21) == 461);
    assert(dist_band_lo(22) == 463 && dist_band_hi(22) == 505);
    assert(dist_band_lo(23) == 507 && dist_band_hi(23) == 551);
    assert(dist_band_lo(24) == 553 && dist_band_hi(24) == 599);
    assert(dist_band_lo(25) == 601 && dist_band_hi(25) == 649);
    assert(dist_band_lo(26) == 651 && dist_band_hi(26) == 701);
    assert(dist_band_lo(27) == 703 && dist_band_hi(27) == 755);
    assert(dist_band_lo(28) == 757 && dist_band_hi(28) == 811);
    assert(dist_band_lo(29) == 813 && dist_band_hi(29) == 869);
    assert(dist_band_lo(30) == 871 && dist_band_hi(30) == 929);
    assert(dist_band_lo(31) == 931 && dist_band_hi(31) == 991);
    assert(dist_band_lo(32) == 993 && dist_band_hi(32) == 1055);
    assert(dist_band_lo(33) == 1057 && dist_band_hi(33) == 1121);
    assert(dist_band_lo(34) == 1123 && dist_band_hi(34) == 1189);
    assert(dist_band_lo(35) == 1191 && dist_band_hi(35) == 1259);
    assert(dist_band_lo(36) == 1261 && dist_band_hi(36) == 1331);
    assert(dist_band_lo(37) == 1333 && dist_band_hi(37) == 1405);
    assert(dist_band_lo(38) == 1407 && dist_band_hi(38) == 1481);
    assert(dist_band_lo(39) == 1483 && dist_band_hi(39) == 1559);
    assert(dist_band_lo(40) == 1561 && dist_band_hi(40) == 1639);
    assert(dist_band_lo(41) == 1641 && dist_band_hi(41) == 1721);
    assert(dist_band_lo(42) == 1723 && dist_band_hi(42) == 1805);
    assert(dist_band_lo(43) == 1807 && dist_band_hi(43) == 1891);
    assert(dist_band_lo(44) == 1893 && dist_band_hi(44) == 1979);
    assert(dist_band_lo(45) == 1981 && dist_band_hi(45) == 2069);
    assert(dist_band_lo(46) == 2071 && dist_band_hi(46) == 2161);
    assert(dist_band_lo(47) == 2163 && dist_band_hi(47) == 2255);
    assert(dist_band_lo(48) == 2257 && dist_band_hi(48) == 2351);
    assert(dist_band_lo(49) == 2353 && dist_band_hi(49) == 2449);
    assert(dist_band_lo(50) == 2451 && dist_band_hi(50) == 2549);
    assert(dist_band_lo(51) == 2551 && dist_band_hi(51) == 2651);
    assert(dist_band_lo(52) == 2653 && dist_band_hi(52) == 2755);
    assert(dist_band_lo(53) == 2757 && dist_band_hi(53) == 2861);
    assert(dist_band_lo(54) == 2863 && dist_band_hi(54) == 2969);
    assert(dist_band_lo(55) == 2971 && dist_band_hi(55) == 3079);
    assert(dist_band_lo(56) == 3081 && dist_band_hi(56) == 3191);
    assert(dist_band_lo(57) == 3193 && dist_band_hi(57) == 3305);
    assert(dist_band_lo(58) == 3307 && dist_band_hi(58) == 3421);
    assert(dist_band_lo(59) == 3423 && dist_band_hi(59) == 3539);
    assert(dist_band_lo(60) == 3541 && dist_band_hi(60) == 3659);
    assert(dist_band_lo(61) == 3661 && dist_band_hi(61) == 3781);
    assert(dist_band_lo(62) == 3783 && dist_band_hi(62) == 3905);
    assert(dist_band_lo(63) == 3907 && dist_band_hi(63) == 4031);
    assert(dist_band_lo(64) == 4033 && dist_band_hi(64) == 4159);
    assert(dist_band_lo(65) == 4161 && dist_band_hi(65) == 4289);
    assert(dist_band_lo(66) == 4291 && dist_band_hi(66) == 4421);
    assert(dist_band_lo(67) == 4423 && dist_band_hi(67) == 4555);
    assert(dist_band_lo(68) == 4557 && dist_band_hi(68) == 4691);
    assert(dist_band_lo(69) == 4693 && dist_band_hi(69) == 4829);
    assert(dist_band_lo(70) == 4831 && dist_band_hi(70) == 4969);
    assert(dist_band_lo(71) == 4971 && dist_band_hi(71) == 5111);
    assert(dist_band_lo(72) == 5113 && dist_band_hi(72) == 5255);
    assert(dist_band_lo(73) == 5257 && dist_band_hi(73) == 5401);
    assert(dist_band_lo(74) == 5403 && dist_band_hi(74) == 5549);
    assert(dist_band_lo(75) == 5551 && dist_band_hi(75) == 5699);
    assert(dist_band_lo(76) == 5701 && dist_band_hi(76) == 5851);
    assert(dist_band_lo(77) == 5853 && dist_band_hi(77) == 6005);
    assert(dist_band_lo(78) == 6007 && dist_band_hi(78) == 6161);
    assert(dist_band_lo(79) == 6163 && dist_band_hi(79) == 6319);
    assert(dist_band_lo(80) == 6321 && dist_band_hi(80) == 6479);
    assert(dist_band_lo(81) == 6481 && dist_band_hi(81) == 6641);
    assert(dist_band_lo(82) == 6643 && dist_band_hi(82) == 6805);
    assert(dist_band_lo(83) == 6807 && dist_band_hi(83) == 6971);
    assert(dist_band_lo(84) == 6973 && dist_band_hi(84) == 7139);
    assert(dist_band_lo(85) == 7141 && dist_band_hi(85) == 7309);
    assert(dist_band_lo(86) == 7311 && dist_band_hi(86) == 7481);
    assert(dist_band_lo(87) == 7483 && dist_band_hi(87) == 7655);
    assert(dist_band_lo(88) == 7657 && dist_band_hi(88) == 7831);
    assert(dist_band_lo(89) == 7833 && dist_band_hi(89) == 8009);
    assert(dist_band_lo(90) == 8011 && dist_band_hi(90) == 8189);
    assert(dist_band_lo(91) == 8191 && dist_band_hi(91) == 8371);
    assert(dist_band_lo(92) == 8373 && dist_band_hi(92) == 8555);
    assert(dist_band_lo(93) == 8557 && dist_band_hi(93) == 8741);
    assert(dist_band_lo(94) == 8743 && dist_band_hi(94) == 8929);
    assert(dist_band_lo(95) == 8931 && dist_band_hi(95) == 9119);
    assert(dist_band_lo(96) == 9121 && dist_band_hi(96) == 9311);
    assert(dist_band_lo(97) == 9313 && dist_band_hi(97) == 9505);
    assert(dist_band_lo(98) == 9507 && dist_band_hi(98) == 9701);
    assert(dist_band_lo(99) == 9703 && dist_band_hi(99) == 9899);
}

/// A squared distance inside ring `d`'s band maps to exactly `d`: on every
/// non-gap input the lookup returns the nearest-integer square root.
#[verifier::rlimit(100)]
pub proof fn lemma_dist_band_value(s: int, d: int)
    requires
        1 <= d <= 99,
        dist_band_lo(d) <= s <= dist_band_hi(d),
    ensures
        dist_of_sq(s) == d,
{
    assert(dist_band_lo(1) == 1 && dist_band_hi(1) == 1);
    assert(dist_band_lo(2) == 3 && dist_band_hi(2) == 5);
    assert(dist_band_lo(3) == 7 && dist_band_hi(3) == 11);
    assert(dist_band_lo(4) == 13 && dist_band_hi(4) == 19);
    assert(dist_band_lo(5) == 21 && dist_band_hi(5) == 29);
    assert(dist_band_lo(6) == 31 && dist_band_hi(6) == 41);
    assert(dist_band_lo(7) == 43 && dist_band_hi(7) == 55);
    assert(dist_band_lo(8) == 57 && dist_band_hi(8) == 71);
    assert(dist_band_lo(9) == 73 && dist_band_hi(9) == 89);
    assert(dist_band_lo(10) == 91 && dist_band_hi(10) == 109);
    assert(dist_band_lo(11) == 111 && dist_band_hi(11) == 131);
    assert(dist_band_lo(12) == 133 && dist_band_hi(12) == 155);
    assert(dist_band_lo(13) == 157 && dist_band_hi(13) == 181);
    assert(dist_band_lo(14) == 183 && dist_band_hi(14) == 209);
    assert(dist_band_lo(15) == 211 && dist_band_hi(15) == 239);
    assert(dist_band_lo(16) == 241 && dist_band_hi(16) == 271);
    assert(dist_band_lo(17) == 273 && dist_band_hi(17) == 305);
    assert(dist_band_lo(18) == 307 && dist_band_hi(18) == 341);
    assert(dist_band_lo(19) == 343 && dist_band_hi(19) == 379);
    assert(dist_band_lo(20) == 381 && dist_band_hi(20) == 419);
    assert(dist_band_lo(21) == 421 && dist_band_hi(21) == 461);
    assert(dist_band_lo(22) == 463 && dist_band_hi(22) == 505);
    assert(dist_band_lo(23) == 507 && dist_band_hi(23) == 551);
    assert(dist_band_lo(24) == 553 && dist_band_hi(24) == 599);
    assert(dist_band_lo(25) == 601 && dist_band_hi(25) == 649);
    assert(dist_band_lo(26) == 651 && dist_band_hi(26) == 701);
    assert(dist_band_lo(27) == 703 && dist_band_hi(27) == 755);
    assert(dist_band_lo(28) == 757 && dist_band_hi(28) == 811);
    assert(dist_band_lo(29) == 813 && dist_band_hi(29) == 869);
    assert(dist_band_lo(30) == 871 && dist_band_hi(30) == 929);
    assert(dist_band_lo(31) == 931 && dist_band_hi(31) == 991);
    assert(dist_band_lo(32) == 993 && dist_band_hi(32) == 1055);
    assert(dist_band_lo(33) == 1057 && dist_band_hi(33) == 1121);
    assert(dist_band_lo(34) == 1123 && dist_band_hi(34) == 1189);
    assert(dist_band_lo(35) == 1191 && dist_band_hi(35) == 1259);
    assert(dist_band_lo(36) == 1261 && dist_band_hi(36) == 1331);
    assert(dist_band_lo(37) == 1333 && dist_band_hi(37) == 1405);
    assert(dist_band_lo(38) == 1407 && dist_band_hi(38) == 1481);
    assert(dist_band_lo(39) == 1483 && dist_band_hi(39) == 1559);
    assert(dist_band_lo(40) == 1561 && dist_band_hi(40) == 1639);
    assert(dist_band_lo(41) == 1641 && dist_band_hi(41) == 1721);
    assert(dist_band_lo(42) == 1723 && dist_band_hi(42) == 1805);
    assert(dist_band_lo(43) == 1807 && dist_band_hi(43) == 1891);
    assert(dist_band_lo(44) == 1893 && dist_band_hi(44) == 1979);
    assert(dist_band_lo(45) == 1981 && dist_band_hi(45) == 2069);
    assert(dist_band_lo(46) == 2071 && dist_band_hi(46) == 2161);
    assert(dist_band_lo(47) == 2163 && dist_band_hi(47) == 2255);
    assert(dist_band_lo(48) == 2257 && dist_band_hi(48) == 2351);
    assert(dist_band_lo(49) == 2353 && dist_band_hi(49) == 2449);
    assert(dist_band_lo(50) == 2451 && dist_band_hi(50) == 2549);
    assert(dist_band_lo(51) == 2551 && dist_band_hi(51) == 2651);
    assert(dist_band_lo(52) == 2653 && dist_band_hi(52) == 2755);
    assert(dist_band_lo(53) == 2757 && dist_band_hi(53) == 2861);
    assert(dist_band_lo(54) == 2863 && dist_band_hi(54) == 2969);
    assert(dist_band_lo(55) == 2971 && dist_band_hi(55) == 3079);
    assert(dist_band_lo(56) == 3081 && dist_band_hi(56) == 3191);
    assert(dist_band_lo(57) == 3193 && dist_band_hi(57) == 3305);
    assert(dist_band_lo(58) == 3307 && dist_band_hi(58) == 3421);
    assert(dist_band_lo(59) == 3423 && dist_band_hi(59) == 3539);
    assert(dist_band_lo(60) == 3541 && dist_band_hi(60) == 3659);
    assert(dist_band_lo(61) == 3661 && dist_band_hi(61) == 3781);
    assert(dist_band_lo(62) == 3783 && dist_band_hi(62) == 3905);
    assert(dist_band_lo(63) == 3907 && dist_band_hi(63) == 4031);
    assert(dist_band_lo(64) == 4033 && dist_band_hi(64) == 4159);
    assert(dist_band_lo(65) == 4161 && dist_band_hi(65) == 4289);
    assert(dist_band_lo(66) == 4291 && dist_band_hi(66) == 4421);
    assert(dist_band_lo(67) == 4423 && dist_band_hi(67) == 4555);
    assert(dist_band_lo(68) == 4557 && dist_band_hi(68) == 4691);
    assert(dist_band_lo(69) == 4693 && dist_band_hi(69) == 4829);
    assert(dist_band_lo(70) == 4831 && dist_band_hi(70) == 4969);
    assert(dist_band_lo(71) == 4971 && dist_band_hi(71) == 5111);
    assert(dist_band_lo(72) == 5113 && dist_band_hi(72) == 5255);
    assert(dist_band_lo(73) == 5257 && dist_band_hi(73) == 5401);
    assert(dist_band_lo(74) == 5403 && dist_band_hi(74) == 5549);
    assert(dist_band_lo(75) == 5551 && dist_band_hi(75) == 5699);
    assert(dist_band_lo(76) == 5701 && dist_band_hi(76) == 5851);
    assert(dist_band_lo(77) == 5853 && dist_band_hi(77) == 6005);
    assert(dist_band_lo(78) == 6007 && dist_band_hi(78) == 6161);
    assert(dist_band_lo(79) == 6163 && dist_band_hi(79) == 6319);
    assert(dist_band_lo(80) == 6321 && dist_band_hi(80) == 6479);
    assert(dist_band_lo(81) == 6481 && dist_band_hi(81) == 6641);
    assert(dist_band_lo(82) == 6643 && dist_band_hi(82) == 6805);
    assert(dist_band_lo(83) == 6807 && dist_band_hi(83) == 6971);
    assert(dist_band_lo(84) == 6973 && dist_band_hi(84) == 7139);
    assert(dist_band_lo(85) == 7141 && dist_band_hi(85) == 7309);
    assert(dist_band_lo(86) == 7311 && dist_band_hi(86) == 7481);
    assert(dist_band_lo(87) == 7483 && dist_band_hi(87) == 7655);
    assert(dist_band_lo(88) == 7657 && dist_band_hi(88) == 7831);
    assert(dist_band_lo(89) == 7833 && dist_band_hi(89) == 8009);
    assert(dist_band_lo(90) == 8011 && dist_band_hi(90) == 8189);
    assert(dist_band_lo(91) == 8191 && dist_band_hi(91) == 8371);
    assert(dist_band_lo(92) == 8373 && dist_band_hi(92) == 8555);
    assert(dist_band_lo(93) == 8557 && dist_band_hi(93) == 8741);
    assert(dist_band_lo(94) == 8743 && dist_band_hi(94) == 8929);
    assert(dist_band_lo(95) == 8931 && dist_band_hi(95) == 9119);
    assert(dist_band_lo(96) == 9121 && dist_band_hi(96) == 9311);
    assert(dist_band_lo(97) == 9313 && dist_band_hi(97) == 9505);
    assert(dist_band_lo(98) == 9507 && dist_band_hi(98) == 9701);
    assert(dist_band_lo(99) == 9703 && dist_band_hi(99) == 9899);
}

/// The distance lookup never decreases as the squared distance grows, as
/// long as neither input sits on one of the between-band gaps that the
/// thresholds skip.
pub proof fn lemma_distance_monotone(s1: int, s2: int)
    requires
        0 <= s1 <= s2,
        dist_of_sq(s1) < 100 || s1 >= 9900,
        dist_of_sq(s2) < 100 || s2 >= 9900,
    ensures
        dist_of_sq(s1) <= dist_of_sq(s2),
{
    lemma_dist_characterize(s1);
    lemma_dist_characterize(s2);
    let d1: int = dist_of_sq(s1);
    let d2: int = dist_of_sq(s2);
    if d2 < 100 && d1 < 100 && d1 >= 1 && d2 >= 1 && d1 > d2 {
        assert(false) by (nonlinear_arith)
            requires
                d1 >= d2 + 1,
                d2 >= 1,
                d1 * d1 - d1 + 1 <= s1,
                s1 <= s2,
                s2 <= d2 * d2 + d2 - 1,
        ;
    }
}

} // verus!
