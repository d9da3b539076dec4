use vstd::prelude::*;

verus! {

/// `x` to the fifth power.
pub open spec fn pow5(x: int) -> int {
    x * x * x * x * x
}

/// `x` to the twelfth power.
pub open spec fn pow12(x: int) -> int {
    pow5(x) * pow5(x) * x * x
}

// The sRGB transfer function, decoding direction, on x in [0, 1]:
//   decode(x) = x / 12.92                        for x <= 0.04045
//   decode(x) = ((x + 0.055) / 1.055) ^ 2.4      otherwise.
// For x = c / 255 the power branch starts at c = 11, and
// (c / 255 + 0.055) / 1.055 = (40 c + 561) / 10761. For the sRGB midpoint
// x = (c - 1/2) / 255 it is (40 c + 541) / 10761, and the power branch again
// starts at c = 11. Since 2.4 = 12 / 5, `65535 * t ^ 2.4 >= l` reads
// `l^5 * 10761^12 <= 65535^5 * n^12` for t = n / 10761.

/// Whether the 8-bit sRGB value `c` decodes, on the 16-bit linear scale, to at
/// least `l`: `65535 * decode(c / 255) >= l`.
pub open spec fn decoded_at_least(c: int, l: int) -> bool {
    if c <= 10 {
        l * 255 * 1292 <= 65535 * 100 * c
    } else {
        pow5(l) * pow12(10761) <= pow5(65535) * pow12(40 * c + 561)
    }
}

/// Whether the sRGB midpoint just below the 8-bit value `c` decodes, on the
/// 16-bit linear scale, to at most `l`: `65535 * decode((c - 1/2) / 255) <= l`.
pub open spec fn midpoint_decodes_at_most(c: int, l: int) -> bool {
    if c <= 10 {
        65535 * 100 * (2 * c - 1) <= l * 510 * 1292
    } else {
        pow5(65535) * pow12(40 * c + 541) <= pow5(l) * pow12(10761)
    }
}

/// Whether `l` is the 16-bit linear level of the 8-bit sRGB value `c`: the
/// largest `l` with `l <= 65535 * decode(c / 255)`.
pub open spec fn is_decoded_level(c: int, l: int) -> bool {
    decoded_at_least(c, l) && !decoded_at_least(c, l + 1)
}

/// `l` is the decoded level of `c`, and `c` is the value nearest to `l` among
/// its neighbours: the midpoint below `c` decodes at or below `l`, and the
/// midpoint above `c` decodes above it.
pub open spec fn level_fits(c: int, l: int) -> bool {
    &&& is_decoded_level(c, l)
    &&& c == 0 || midpoint_decodes_at_most(c, l)
    &&& c == 255 || !midpoint_decodes_at_most(c + 1, l)
}

/// The 16-bit linear level of the 8-bit sRGB value `c`: the largest `l` with
/// `l <= 65535 * decode(c / 255)`. Encoding that level gives `c` back.
pub fn decode_level(c: u8) -> (l: u16)
    ensures
        is_decoded_level(c as int, l as int),
        is_encoded_value(l as int, c as int),
{
    let l: u16 = match c {
        0 => { assert(level_fits(0, 0)) by (nonlinear_arith); 0 },
        1 => { assert(level_fits(1, 19)) by (nonlinear_arith); 19 },
        2 => { assert(level_fits(2, 39)) by (nonlinear_arith); 39 },
        3 => { assert(level_fits(3, 59)) by (nonlinear_arith); 59 },
        4 => { assert(level_fits(4, 79)) by (nonlinear_arith); 79 },
        5 => { assert(level_fits(5, 99)) by (nonlinear_arith); 99 },
        6 => { assert(level_fits(6, 119)) by (nonlinear_arith); 119 },
        7 => { assert(level_fits(7, 139)) by (nonlinear_arith); 139 },
        8 => { assert(level_fits(8, 159)) by (nonlinear_arith); 159 },
        9 => { assert(level_fits(9, 179)) by (nonlinear_arith); 179 },
        10 => { assert(level_fits(10, 198)) by (nonlinear_arith); 198 },
        11 => { assert(level_fits(11, 219)) by (nonlinear_arith); 219 },
        12 => { assert(level_fits(12, 240)) by (nonlinear_arith); 240 },
        13 => { assert(level_fits(13, 263)) by (nonlinear_arith); 263 },
        14 => { assert(level_fits(14, 287)) by (nonlinear_arith); 287 },
        15 => { assert(level_fits(15, 313)) by (nonlinear_arith); 313 },
        16 => { assert(level_fits(16, 339)) by (nonlinear_arith); 339 },
        17 => { assert(level_fits(17, 367)) by (nonlinear_arith); 367 },
        18 => { assert(level_fits(18, 396)) by (nonlinear_arith); 396 },
        19 => { assert(level_fits(19, 426)) by (nonlinear_arith); 426 },
        20 => { assert(level_fits(20, 458)) by (nonlinear_arith); 458 },
        21 => { assert(level_fits(21, 491)) by (nonlinear_arith); 491 },
        22 => { assert(level_fits(22, 525)) by (nonlinear_arith); 525 },
        23 => { assert(level_fits(23, 561)) by (nonlinear_arith); 561 },
        24 => { assert(level_fits(24, 598)) by (nonlinear_arith); 598 },
        25 => { assert(level_fits(25, 637)) by (nonlinear_arith); 637 },
        26 => { assert(level_fits(26, 676)) by (nonlinear_arith); 676 },
        27 => { assert(level_fits(27, 718)) by (nonlinear_arith); 718 },
        28 => { assert(level_fits(28, 761)) by (nonlinear_arith); 761 },
        29 => { assert(level_fits(29, 805)) by (nonlinear_arith); 805 },
        30 => { assert(level_fits(30, 850)) by (nonlinear_arith); 850 },
        31 => { assert(level_fits(31, 897)) by (nonlinear_arith); 897 },
        32 => { assert(level_fits(32, 946)) by (nonlinear_arith); 946 },
        33 => { assert(level_fits(33, 996)) by (nonlinear_arith); 996 },
        34 => { assert(level_fits(34, 1048)) by (nonlinear_arith); 1048 },
        35 => { assert(level_fits(35, 1101)) by (nonlinear_arith); 1101 },
        36 => { assert(level_fits(36, 1156)) by (nonlinear_arith); 1156 },
        37 => { assert(level_fits(37, 1212)) by (nonlinear_arith); 1212 },
        38 => { assert(level_fits(38, 1270)) by (nonlinear_arith); 1270 },
        39 => { assert(level_fits(39, 1329)) by (nonlinear_arith); 1329 },
        40 => { assert(level_fits(40, 1390)) by (nonlinear_arith); 1390 },
        41 => { assert(level_fits(41, 1453)) by (nonlinear_arith); 1453 },
        42 => { assert(level_fits(42, 1517)) by (nonlinear_arith); 1517 },
        43 => { assert(level_fits(43, 1583)) by (nonlinear_arith); 1583 },
        44 => { assert(level_fits(44, 1650)) by (nonlinear_arith); 1650 },
        45 => { assert(level_fits(45, 1719)) by (nonlinear_arith); 1719 },
        46 => { assert(level_fits(46, 1790)) by (nonlinear_arith); 1790 },
        47 => { assert(level_fits(47, 1862)) by (nonlinear_arith); 1862 },
        48 => { assert(level_fits(48, 1937)) by (nonlinear_arith); 1937 },
        49 => { assert(level_fits(49, 2012)) by (nonlinear_arith); 2012 },
        50 => { assert(level_fits(50, 2090)) by (nonlinear_arith); 2090 },
        51 => { assert(level_fits(51, 2169)) by (nonlinear_arith); 2169 },
        52 => { assert(level_fits(52, 2250)) by (nonlinear_arith); 2250 },
        53 => { assert(level_fits(53, 2333)) by (nonlinear_arith); 2333 },
        54 => { assert(level_fits(54, 2417)) by (nonlinear_arith); 2417 },
        55 => { assert(level_fits(55, 2503)) by (nonlinear_arith); 2503 },
        56 => { assert(level_fits(56, 2591)) by (nonlinear_arith); 2591 },
        57 => { assert(level_fits(57, 2681)) by (nonlinear_arith); 2681 },
        58 => { assert(level_fits(58, 2772)) by (nonlinear_arith); 2772 },
        59 => { assert(level_fits(59, 2866)) by (nonlinear_arith); 2866 },
        60 => { assert(level_fits(60, 2961)) by (nonlinear_arith); 2961 },
        61 => { assert(level_fits(61, 3058)) by (nonlinear_arith); 3058 },
        62 => { assert(level_fits(62, 3156)) by (nonlinear_arith); 3156 },
        63 => { assert(level_fits(63, 3257)) by (nonlinear_arith); 3257 },
        64 => { assert(level_fits(64, 3359)) by (nonlinear_arith); 3359 },
        65 => { assert(level_fits(65, 3464)) by (nonlinear_arith); 3464 },
        66 => { assert(level_fits(66, 3570)) by (nonlinear_arith); 3570 },
        67 => { assert(level_fits(67, 3678)) by (nonlinear_arith); 3678 },
        68 => { assert(level_fits(68, 3788)) by (nonlinear_arith); 3788 },
        69 => { assert(level_fits(69, 3900)) by (nonlinear_arith); 3900 },
        70 => { assert(level_fits(70, 4013)) by (nonlinear_arith); 4013 },
        71 => { assert(level_fits(71, 4129)) by (nonlinear_arith); 4129 },
        72 => { assert(level_fits(72, 4246)) by (nonlinear_arith); 4246 },
        73 => { assert(level_fits(73, 4366)) by (nonlinear_arith); 4366 },
        74 => { assert(level_fits(74, 4487)) by (nonlinear_arith); 4487 },
        75 => { assert(level_fits(75, 4611)) by (nonlinear_arith); 4611 },
        76 => { assert(level_fits(76, 4736)) by (nonlinear_arith); 4736 },
        77 => { assert(level_fits(77, 4863)) by (nonlinear_arith); 4863 },
        78 => { assert(level_fits(78, 4992)) by (nonlinear_arith); 4992 },
        79 => { assert(level_fits(79, 5124)) by (nonlinear_arith); 5124 },
        80 => { assert(level_fits(80, 5257)) by (nonlinear_arith); 5257 },
        81 => { assert(level_fits(81, 5392)) by (nonlinear_arith); 5392 },
        82 => { assert(level_fits(82, 5529)) by (nonlinear_arith); 5529 },
        83 => { assert(level_fits(83, 5668)) by (nonlinear_arith); 5668 },
        84 => { assert(level_fits(84, 5810)) by (nonlinear_arith); 5810 },
        85 => { assert(level_fits(85, 5953)) by (nonlinear_arith); 5953 },
        86 => { assert(level_fits(86, 6098)) by (nonlinear_arith); 6098 },
        87 => { assert(level_fits(87, 6245)) by (nonlinear_arith); 6245 },
        88 => { assert(level_fits(88, 6395)) by (nonlinear_arith); 6395 },
        89 => { assert(level_fits(89, 6546)) by (nonlinear_arith); 6546 },
        90 => { assert(level_fits(90, 6700)) by (nonlinear_arith); 6700 },
        91 => { assert(level_fits(91, 6856)) by (nonlinear_arith); 6856 },
        92 => { assert(level_fits(92, 7013)) by (nonlinear_arith); 7013 },
        93 => { assert(level_fits(93, 7173)) by (nonlinear_arith); 7173 },
        94 => { assert(level_fits(94, 7335)) by (nonlinear_arith); 7335 },
        95 => { assert(level_fits(95, 7499)) by (nonlinear_arith); 7499 },
        96 => { assert(level_fits(96, 7665)) by (nonlinear_arith); 7665 },
        97 => { assert(level_fits(97, 7833)) by (nonlinear_arith); 7833 },
        98 => { assert(level_fits(98, 8004)) by (nonlinear_arith); 8004 },
        99 => { assert(level_fits(99, 8176)) by (nonlinear_arith); 8176 },
        100 => { assert(level_fits(100, 8351)) by (nonlinear_arith); 8351 },
        101 => { assert(level_fits(101, 8528)) by (nonlinear_arith); 8528 },
        102 => { assert(level_fits(102, 8707)) by (nonlinear_arith); 8707 },
        103 => { assert(level_fits(103, 8888)) by (nonlinear_arith); 8888 },
        104 => { assert(level_fits(104, 9072)) by (nonlinear_arith); 9072 },
        105 => { assert(level_fits(105, 9257)) by (nonlinear_arith); 9257 },
        106 => { assert(level_fits(106, 9445)) by (nonlinear_arith); 9445 },
        107 => { assert(level_fits(107, 9635)) by (nonlinear_arith); 9635 },
        108 => { assert(level_fits(108, 9827)) by (nonlinear_arith); 9827 },
        109 => { assert(level_fits(109, 10022)) by (nonlinear_arith); 10022 },
        110 => { assert(level_fits(110, 10218)) by (nonlinear_arith); 10218 },
        111 => { assert(level_fits(111, 10417)) by (nonlinear_arith); 10417 },
        112 => { assert(level_fits(112, 10618)) by (nonlinear_arith); 10618 },
        113 => { assert(level_fits(113, 10821)) by (nonlinear_arith); 10821 },
        114 => { assert(level_fits(114, 11027)) by (nonlinear_arith); 11027 },
        115 => { assert(level_fits(115, 11235)) by (nonlinear_arith); 11235 },
        116 => { assert(level_fits(116, 11445)) by (nonlinear_arith); 11445 },
        117 => { assert(level_fits(117, 11657)) by (nonlinear_arith); 11657 },
        118 => { assert(level_fits(118, 11872)) by (nonlinear_arith); 11872 },
        119 => { assert(level_fits(119, 12089)) by (nonlinear_arith); 12089 },
        120 => { assert(level_fits(120, 12308)) by (nonlinear_arith); 12308 },
        121 => { assert(level_fits(121, 12530)) by (nonlinear_arith); 12530 },
        122 => { assert(level_fits(122, 12754)) by (nonlinear_arith); 12754 },
        123 => { assert(level_fits(123, 12980)) by (nonlinear_arith); 12980 },
        124 => { assert(level_fits(124, 13208)) by (nonlinear_arith); 13208 },
        125 => { assert(level_fits(125, 13439)) by (nonlinear_arith); 13439 },
        126 => { assert(level_fits(126, 13673)) by (nonlinear_arith); 13673 },
        127 => { assert(level_fits(127, 13908)) by (nonlinear_arith); 13908 },
        128 => { assert(level_fits(128, 14146)) by (nonlinear_arith); 14146 },
        129 => { assert(level_fits(129, 14386)) by (nonlinear_arith); 14386 },
        130 => { assert(level_fits(130, 14629)) by (nonlinear_arith); 14629 },
        131 => { assert(level_fits(131, 14874)) by (nonlinear_arith); 14874 },
        132 => { assert(level_fits(132, 15121)) by (nonlinear_arith); 15121 },
        133 => { assert(level_fits(133, 15371)) by (nonlinear_arith); 15371 },
        134 => { assert(level_fits(134, 15623)) by (nonlinear_arith); 15623 },
        135 => { assert(level_fits(135, 15877)) by (nonlinear_arith); 15877 },
        136 => { assert(level_fits(136, 16134)) by (nonlinear_arith); 16134 },
        137 => { assert(level_fits(137, 16394)) by (nonlinear_arith); 16394 },
        138 => { assert(level_fits(138, 16655)) by (nonlinear_arith); 16655 },
        139 => { assert(level_fits(139, 16920)) by (nonlinear_arith); 16920 },
        140 => { assert(level_fits(140, 17186)) by (nonlinear_arith); 17186 },
        141 => { assert(level_fits(141, 17455)) by (nonlinear_arith); 17455 },
        142 => { assert(level_fits(142, 17727)) by (nonlinear_arith); 17727 },
        143 => { assert(level_fits(143, 18000)) by (nonlinear_arith); 18000 },
        144 => { assert(level_fits(144, 18277)) by (nonlinear_arith); 18277 },
        145 => { assert(level_fits(145, 18556)) by (nonlinear_arith); 18556 },
        146 => { assert(level_fits(146, 18837)) by (nonlinear_arith); 18837 },
        147 => { assert(level_fits(147, 19121)) by (nonlinear_arith); 19121 },
        148 => { assert(level_fits(148, 19407)) by (nonlinear_arith); 19407 },
        149 => { assert(level_fits(149, 19696)) by (nonlinear_arith); 19696 },
        150 => { assert(level_fits(150, 19987)) by (nonlinear_arith); 19987 },
        151 => { assert(level_fits(151, 20281)) by (nonlinear_arith); 20281 },
        152 => { assert(level_fits(152, 20577)) by (nonlinear_arith); 20577 },
        153 => { assert(level_fits(153, 20875)) by (nonlinear_arith); 20875 },
        154 => { assert(level_fits(154, 21177)) by (nonlinear_arith); 21177 },
        155 => { assert(level_fits(155, 21480)) by (nonlinear_arith); 21480 },
        156 => { assert(level_fits(156, 21787)) by (nonlinear_arith); 21787 },
        157 => { assert(level_fits(157, 22096)) by (nonlinear_arith); 22096 },
        158 => { assert(level_fits(158, 22407)) by (nonlinear_arith); 22407 },
        159 => { assert(level_fits(159, 22721)) by (nonlinear_arith); 22721 },
        160 => { assert(level_fits(160, 23037)) by (nonlinear_arith); 23037 },
        161 => { assert(level_fits(161, 23356)) by (nonlinear_arith); 23356 },
        162 => { assert(level_fits(162, 23678)) by (nonlinear_arith); 23678 },
        163 => { assert(level_fits(163, 24002)) by (nonlinear_arith); 24002 },
        164 => { assert(level_fits(164, 24329)) by (nonlinear_arith); 24329 },
        165 => { assert(level_fits(165, 24658)) by (nonlinear_arith); 24658 },
        166 => { assert(level_fits(166, 24990)) by (nonlinear_arith); 24990 },
        167 => { assert(level_fits(167, 25324)) by (nonlinear_arith); 25324 },
        168 => { assert(level_fits(168, 25661)) by (nonlinear_arith); 25661 },
        169 => { assert(level_fits(169, 26001)) by (nonlinear_arith); 26001 },
        170 => { assert(level_fits(170, 26343)) by (nonlinear_arith); 26343 },
        171 => { assert(level_fits(171, 26688)) by (nonlinear_arith); 26688 },
        172 => { assert(level_fits(172, 27035)) by (nonlinear_arith); 27035 },
        173 => { assert(level_fits(173, 27386)) by (nonlinear_arith); 27386 },
        174 => { assert(level_fits(174, 27738)) by (nonlinear_arith); 27738 },
        175 => { assert(level_fits(175, 28094)) by (nonlinear_arith); 28094 },
        176 => { assert(level_fits(176, 28452)) by (nonlinear_arith); 28452 },
        177 => { assert(level_fits(177, 28812)) by (nonlinear_arith); 28812 },
        178 => { assert(level_fits(178, 29176)) by (nonlinear_arith); 29176 },
        179 => { assert(level_fits(179, 29542)) by (nonlinear_arith); 29542 },
        180 => { assert(level_fits(180, 29910)) by (nonlinear_arith); 29910 },
        181 => { assert(level_fits(181, 30282)) by (nonlinear_arith); 30282 },
        182 => { assert(level_fits(182, 30656)) by (nonlinear_arith); 30656 },
        183 => { assert(level_fits(183, 31032)) by (nonlinear_arith); 31032 },
        184 => { assert(level_fits(184, 31412)) by (nonlinear_arith); 31412 },
        185 => { assert(level_fits(185, 31794)) by (nonlinear_arith); 31794 },
        186 => { assert(level_fits(186, 32179)) by (nonlinear_arith); 32179 },
        187 => { assert(level_fits(187, 32566)) by (nonlinear_arith); 32566 },
        188 => { assert(level_fits(188, 32956)) by (nonlinear_arith); 32956 },
        189 => { assert(level_fits(189, 33349)) by (nonlinear_arith); 33349 },
        190 => { assert(level_fits(190, 33745)) by (nonlinear_arith); 33745 },
        191 => { assert(level_fits(191, 34143)) by (nonlinear_arith); 34143 },
        192 => { assert(level_fits(192, 34544)) by (nonlinear_arith); 34544 },
        193 => { assert(level_fits(193, 34948)) by (nonlinear_arith); 34948 },
        194 => { assert(level_fits(194, 35354)) by (nonlinear_arith); 35354 },
        195 => { assert(level_fits(195, 35764)) by (nonlinear_arith); 35764 },
        196 => { assert(level_fits(196, 36176)) by (nonlinear_arith); 36176 },
        197 => { assert(level_fits(197, 36590)) by (nonlinear_arith); 36590 },
        198 => { assert(level_fits(198, 37008)) by (nonlinear_arith); 37008 },
        199 => { assert(level_fits(199, 37428)) by (nonlinear_arith); 37428 },
        200 => { assert(level_fits(200, 37851)) by (nonlinear_arith); 37851 },
        201 => { assert(level_fits(201, 38277)) by (nonlinear_arith); 38277 },
        202 => { assert(level_fits(202, 38706)) by (nonlinear_arith); 38706 },
        203 => { assert(level_fits(203, 39137)) by (nonlinear_arith); 39137 },
        204 => { assert(level_fits(204, 39571)) by (nonlinear_arith); 39571 },
        205 => { assert(level_fits(205, 40008)) by (nonlinear_arith); 40008 },
        206 => { assert(level_fits(206, 40448)) by (nonlinear_arith); 40448 },
        207 => { assert(level_fits(207, 40891)) by (nonlinear_arith); 40891 },
        208 => { assert(level_fits(208, 41336)) by (nonlinear_arith); 41336 },
        209 => { assert(level_fits(209, 41784)) by (nonlinear_arith); 41784 },
        210 => { assert(level_fits(210, 42235)) by (nonlinear_arith); 42235 },
        211 => { assert(level_fits(211, 42689)) by (nonlinear_arith); 42689 },
        212 => { assert(level_fits(212, 43146)) by (nonlinear_arith); 43146 },
        213 => { assert(level_fits(213, 43606)) by (nonlinear_arith); 43606 },
        214 => { assert(level_fits(214, 44068)) by (nonlinear_arith); 44068 },
        215 => { assert(level_fits(215, 44533)) by (nonlinear_arith); 44533 },
        216 => { assert(level_fits(216, 45001)) by (nonlinear_arith); 45001 },
        217 => { assert(level_fits(217, 45472)) by (nonlinear_arith); 45472 },
        218 => { assert(level_fits(218, 45946)) by (nonlinear_arith); 45946 },
        219 => { assert(level_fits(219, 46423)) by (nonlinear_arith); 46423 },
        220 => { assert(level_fits(220, 46902)) by (nonlinear_arith); 46902 },
        221 => { assert(level_fits(221, 47385)) by (nonlinear_arith); 47385 },
        222 => { assert(level_fits(222, 47870)) by (nonlinear_arith); 47870 },
        223 => { assert(level_fits(223, 48358)) by (nonlinear_arith); 48358 },
        224 => { assert(level_fits(224, 48850)) by (nonlinear_arith); 48850 },
        225 => { assert(level_fits(225, 49344)) by (nonlinear_arith); 49344 },
        226 => { assert(level_fits(226, 49840)) by (nonlinear_arith); 49840 },
        227 => { assert(level_fits(227, 50340)) by (nonlinear_arith); 50340 },
        228 => { assert(level_fits(228, 50843)) by (nonlinear_arith); 50843 },
        229 => { assert(level_fits(229, 51349)) by (nonlinear_arith); 51349 },
        230 => { assert(level_fits(230, 51857)) by (nonlinear_arith); 51857 },
        231 => { assert(level_fits(231, 52369)) by (nonlinear_arith); 52369 },
        232 => { assert(level_fits(232, 52883)) by (nonlinear_arith); 52883 },
        233 => { assert(level_fits(233, 53400)) by (nonlinear_arith); 53400 },
        234 => { assert(level_fits(234, 53921)) by (nonlinear_arith); 53921 },
        235 => { assert(level_fits(235, 54444)) by (nonlinear_arith); 54444 },
        236 => { assert(level_fits(236, 54970)) by (nonlinear_arith); 54970 },
        237 => { assert(level_fits(237, 55499)) by (nonlinear_arith); 55499 },
        238 => { assert(level_fits(238, 56031)) by (nonlinear_arith); 56031 },
        239 => { assert(level_fits(239, 56567)) by (nonlinear_arith); 56567 },
        240 => { assert(level_fits(240, 57105)) by (nonlinear_arith); 57105 },
        241 => { assert(level_fits(241, 57646)) by (nonlinear_arith); 57646 },
        242 => { assert(level_fits(242, 58190)) by (nonlinear_arith); 58190 },
        243 => { assert(level_fits(243, 58737)) by (nonlinear_arith); 58737 },
        244 => { assert(level_fits(244, 59286)) by (nonlinear_arith); 59286 },
        245 => { assert(level_fits(245, 59839)) by (nonlinear_arith); 59839 },
        246 => { assert(level_fits(246, 60395)) by (nonlinear_arith); 60395 },
        247 => { assert(level_fits(247, 60954)) by (nonlinear_arith); 60954 },
        248 => { assert(level_fits(248, 61516)) by (nonlinear_arith); 61516 },
        249 => { assert(level_fits(249, 62081)) by (nonlinear_arith); 62081 },
        250 => { assert(level_fits(250, 62649)) by (nonlinear_arith); 62649 },
        251 => { assert(level_fits(251, 63220)) by (nonlinear_arith); 63220 },
        252 => { assert(level_fits(252, 63794)) by (nonlinear_arith); 63794 },
        253 => { assert(level_fits(253, 64371)) by (nonlinear_arith); 64371 },
        254 => { assert(level_fits(254, 64951)) by (nonlinear_arith); 64951 },
        255 => { assert(level_fits(255, 65535)) by (nonlinear_arith); 65535 },
    };
    proof {
        assert forall|k: int| c < k <= 255 implies !#[trigger] midpoint_decodes_at_most(k, l as int) by {
            if midpoint_decodes_at_most(k, l as int) {
                lemma_midpoint_monotone_in_value(c + 1, k, l as int);
            }
        }
    }
    l
}

/// The least 16-bit linear level that is at or above the decoded sRGB midpoint
/// just below the 8-bit value `c`: the least `l` with
/// `65535 * decode((c - 1/2) / 255) <= l`.
pub fn midpoint_level(c: u8) -> (l: u16)
    requires
        c >= 1,
    ensures
        midpoint_decodes_at_most(c as int, l as int),
        !midpoint_decodes_at_most(c as int, l - 1),
{
    match c {
        1 => { assert(midpoint_decodes_at_most(1, 10) && !midpoint_decodes_at_most(1, 9)) by (nonlinear_arith); 10 },
        2 => { assert(midpoint_decodes_at_most(2, 30) && !midpoint_decodes_at_most(2, 29)) by (nonlinear_arith); 30 },
        3 => { assert(midpoint_decodes_at_most(3, 50) && !midpoint_decodes_at_most(3, 49)) by (nonlinear_arith); 50 },
        4 => { assert(midpoint_decodes_at_most(4, 70) && !midpoint_decodes_at_most(4, 69)) by (nonlinear_arith); 70 },
        5 => { assert(midpoint_decodes_at_most(5, 90) && !midpoint_decodes_at_most(5, 89)) by (nonlinear_arith); 90 },
        6 => { assert(midpoint_decodes_at_most(6, 110) && !midpoint_decodes_at_most(6, 109)) by (nonlinear_arith); 110 },
        7 => { assert(midpoint_decodes_at_most(7, 130) && !midpoint_decodes_at_most(7, 129)) by (nonlinear_arith); 130 },
        8 => { assert(midpoint_decodes_at_most(8, 150) && !midpoint_decodes_at_most(8, 149)) by (nonlinear_arith); 150 },
        9 => { assert(midpoint_decodes_at_most(9, 170) && !midpoint_decodes_at_most(9, 169)) by (nonlinear_arith); 170 },
        10 => { assert(midpoint_decodes_at_most(10, 189) && !midpoint_decodes_at_most(10, 188)) by (nonlinear_arith); 189 },
        11 => { assert(midpoint_decodes_at_most(11, 209) && !midpoint_decodes_at_most(11, 208)) by (nonlinear_arith); 209 },
        12 => { assert(midpoint_decodes_at_most(12, 230) && !midpoint_decodes_at_most(12, 229)) by (nonlinear_arith); 230 },
        13 => { assert(midpoint_decodes_at_most(13, 253) && !midpoint_decodes_at_most(13, 252)) by (nonlinear_arith); 253 },
        14 => { assert(midpoint_decodes_at_most(14, 276) && !midpoint_decodes_at_most(14, 275)) by (nonlinear_arith); 276 },
        15 => { assert(midpoint_decodes_at_most(15, 301) && !midpoint_decodes_at_most(15, 300)) by (nonlinear_arith); 301 },
        16 => { assert(midpoint_decodes_at_most(16, 327) && !midpoint_decodes_at_most(16, 326)) by (nonlinear_arith); 327 },
        17 => { assert(midpoint_decodes_at_most(17, 354) && !midpoint_decodes_at_most(17, 353)) by (nonlinear_arith); 354 },
        18 => { assert(midpoint_decodes_at_most(18, 382) && !midpoint_decodes_at_most(18, 381)) by (nonlinear_arith); 382 },
        19 => { assert(midpoint_decodes_at_most(19, 412) && !midpoint_decodes_at_most(19, 411)) by (nonlinear_arith); 412 },
        20 => { assert(midpoint_decodes_at_most(20, 443) && !midpoint_decodes_at_most(20, 442)) by (nonlinear_arith); 443 },
        21 => { assert(midpoint_decodes_at_most(21, 475) && !midpoint_decodes_at_most(21, 474)) by (nonlinear_arith); 475 },
        22 => { assert(midpoint_decodes_at_most(22, 509) && !midpoint_decodes_at_most(22, 508)) by (nonlinear_arith); 509 },
        23 => { assert(midpoint_decodes_at_most(23, 544) && !midpoint_decodes_at_most(23, 543)) by (nonlinear_arith); 544 },
        24 => { assert(midpoint_decodes_at_most(24, 580) && !midpoint_decodes_at_most(24, 579)) by (nonlinear_arith); 580 },
        25 => { assert(midpoint_decodes_at_most(25, 618) && !midpoint_decodes_at_most(25, 617)) by (nonlinear_arith); 618 },
        26 => { assert(midpoint_decodes_at_most(26, 657) && !midpoint_decodes_at_most(26, 656)) by (nonlinear_arith); 657 },
        27 => { assert(midpoint_decodes_at_most(27, 698) && !midpoint_decodes_at_most(27, 697)) by (nonlinear_arith); 698 },
        28 => { assert(midpoint_decodes_at_most(28, 740) && !midpoint_decodes_at_most(28, 739)) by (nonlinear_arith); 740 },
        29 => { assert(midpoint_decodes_at_most(29, 783) && !midpoint_decodes_at_most(29, 782)) by (nonlinear_arith); 783 },
        30 => { assert(midpoint_decodes_at_most(30, 828) && !midpoint_decodes_at_most(30, 827)) by (nonlinear_arith); 828 },
        31 => { assert(midpoint_decodes_at_most(31, 875) && !midpoint_decodes_at_most(31, 874)) by (nonlinear_arith); 875 },
        32 => { assert(midpoint_decodes_at_most(32, 923) && !midpoint_decodes_at_most(32, 922)) by (nonlinear_arith); 923 },
        33 => { assert(midpoint_decodes_at_most(33, 972) && !midpoint_decodes_at_most(33, 971)) by (nonlinear_arith); 972 },
        34 => { assert(midpoint_decodes_at_most(34, 1023) && !midpoint_decodes_at_most(34, 1022)) by (nonlinear_arith); 1023 },
        35 => { assert(midpoint_decodes_at_most(35, 1075) && !midpoint_decodes_at_most(35, 1074)) by (nonlinear_arith); 1075 },
        36 => { assert(midpoint_decodes_at_most(36, 1129) && !midpoint_decodes_at_most(36, 1128)) by (nonlinear_arith); 1129 },
        37 => { assert(midpoint_decodes_at_most(37, 1185) && !midpoint_decodes_at_most(37, 1184)) by (nonlinear_arith); 1185 },
        38 => { assert(midpoint_decodes_at_most(38, 1242) && !midpoint_decodes_at_most(38, 1241)) by (nonlinear_arith); 1242 },
        39 => { assert(midpoint_decodes_at_most(39, 1300) && !midpoint_decodes_at_most(39, 1299)) by (nonlinear_arith); 1300 },
        40 => { assert(midpoint_decodes_at_most(40, 1360) && !midpoint_decodes_at_most(40, 1359)) by (nonlinear_arith); 1360 },
        41 => { assert(midpoint_decodes_at_most(41, 1422) && !midpoint_decodes_at_most(41, 1421)) by (nonlinear_arith); 1422 },
        42 => { assert(midpoint_decodes_at_most(42, 1486) && !midpoint_decodes_at_most(42, 1485)) by (nonlinear_arith); 1486 },
        43 => { assert(midpoint_decodes_at_most(43, 1551) && !midpoint_decodes_at_most(43, 1550)) by (nonlinear_arith); 1551 },
        44 => { assert(midpoint_decodes_at_most(44, 1617) && !midpoint_decodes_at_most(44, 1616)) by (nonlinear_arith); 1617 },
        45 => { assert(midpoint_decodes_at_most(45, 1685) && !midpoint_decodes_at_most(45, 1684)) by (nonlinear_arith); 1685 },
        46 => { assert(midpoint_decodes_at_most(46, 1755) && !midpoint_decodes_at_most(46, 1754)) by (nonlinear_arith); 1755 },
        47 => { assert(midpoint_decodes_at_most(47, 1827) && !midpoint_decodes_at_most(47, 1826)) by (nonlinear_arith); 1827 },
        48 => { assert(midpoint_decodes_at_most(48, 1900) && !midpoint_decodes_at_most(48, 1899)) by (nonlinear_arith); 1900 },
        49 => { assert(midpoint_decodes_at_most(49, 1975) && !midpoint_decodes_at_most(49, 1974)) by (nonlinear_arith); 1975 },
        50 => { assert(midpoint_decodes_at_most(50, 2052) && !midpoint_decodes_at_most(50, 2051)) by (nonlinear_arith); 2052 },
        51 => { assert(midpoint_decodes_at_most(51, 2130) && !midpoint_decodes_at_most(51, 2129)) by (nonlinear_arith); 2130 },
        52 => { assert(midpoint_decodes_at_most(52, 2210) && !midpoint_decodes_at_most(52, 2209)) by (nonlinear_arith); 2210 },
        53 => { assert(midpoint_decodes_at_most(53, 2292) && !midpoint_decodes_at_most(53, 2291)) by (nonlinear_arith); 2292 },
        54 => { assert(midpoint_decodes_at_most(54, 2376) && !midpoint_decodes_at_most(54, 2375)) by (nonlinear_arith); 2376 },
        55 => { assert(midpoint_decodes_at_most(55, 2461) && !midpoint_decodes_at_most(55, 2460)) by (nonlinear_arith); 2461 },
        56 => { assert(midpoint_decodes_at_most(56, 2548) && !midpoint_decodes_at_most(56, 2547)) by (nonlinear_arith); 2548 },
        57 => { assert(midpoint_decodes_at_most(57, 2637) && !midpoint_decodes_at_most(57, 2636)) by (nonlinear_arith); 2637 },
        58 => { assert(midpoint_decodes_at_most(58, 2727) && !midpoint_decodes_at_most(58, 2726)) by (nonlinear_arith); 2727 },
        59 => { assert(midpoint_decodes_at_most(59, 2820) && !midpoint_decodes_at_most(59, 2819)) by (nonlinear_arith); 2820 },
        60 => { assert(midpoint_decodes_at_most(60, 2914) && !midpoint_decodes_at_most(60, 2913)) by (nonlinear_arith); 2914 },
        61 => { assert(midpoint_decodes_at_most(61, 3010) && !midpoint_decodes_at_most(61, 3009)) by (nonlinear_arith); 3010 },
        62 => { assert(midpoint_decodes_at_most(62, 3108) && !midpoint_decodes_at_most(62, 3107)) by (nonlinear_arith); 3108 },
        63 => { assert(midpoint_decodes_at_most(63, 3208) && !midpoint_decodes_at_most(63, 3207)) by (nonlinear_arith); 3208 },
        64 => { assert(midpoint_decodes_at_most(64, 3309) && !midpoint_decodes_at_most(64, 3308)) by (nonlinear_arith); 3309 },
        65 => { assert(midpoint_decodes_at_most(65, 3412) && !midpoint_decodes_at_most(65, 3411)) by (nonlinear_arith); 3412 },
        66 => { assert(midpoint_decodes_at_most(66, 3518) && !midpoint_decodes_at_most(66, 3517)) by (nonlinear_arith); 3518 },
        67 => { assert(midpoint_decodes_at_most(67, 3625) && !midpoint_decodes_at_most(67, 3624)) by (nonlinear_arith); 3625 },
        68 => { assert(midpoint_decodes_at_most(68, 3734) && !midpoint_decodes_at_most(68, 3733)) by (nonlinear_arith); 3734 },
        69 => { assert(midpoint_decodes_at_most(69, 3844) && !midpoint_decodes_at_most(69, 3843)) by (nonlinear_arith); 3844 },
        70 => { assert(midpoint_decodes_at_most(70, 3957) && !midpoint_decodes_at_most(70, 3956)) by (nonlinear_arith); 3957 },
        71 => { assert(midpoint_decodes_at_most(71, 4072) && !midpoint_decodes_at_most(71, 4071)) by (nonlinear_arith); 4072 },
        72 => { assert(midpoint_decodes_at_most(72, 4188) && !midpoint_decodes_at_most(72, 4187)) by (nonlinear_arith); 4188 },
        73 => { assert(midpoint_decodes_at_most(73, 4307) && !midpoint_decodes_at_most(73, 4306)) by (nonlinear_arith); 4307 },
        74 => { assert(midpoint_decodes_at_most(74, 4427) && !midpoint_decodes_at_most(74, 4426)) by (nonlinear_arith); 4427 },
        75 => { assert(midpoint_decodes_at_most(75, 4550) && !midpoint_decodes_at_most(75, 4549)) by (nonlinear_arith); 4550 },
        76 => { assert(midpoint_decodes_at_most(76, 4674) && !midpoint_decodes_at_most(76, 4673)) by (nonlinear_arith); 4674 },
        77 => { assert(midpoint_decodes_at_most(77, 4800) && !midpoint_decodes_at_most(77, 4799)) by (nonlinear_arith); 4800 },
        78 => { assert(midpoint_decodes_at_most(78, 4928) && !midpoint_decodes_at_most(78, 4927)) by (nonlinear_arith); 4928 },
        79 => { assert(midpoint_decodes_at_most(79, 5059) && !midpoint_decodes_at_most(79, 5058)) by (nonlinear_arith); 5059 },
        80 => { assert(midpoint_decodes_at_most(80, 5191) && !midpoint_decodes_at_most(80, 5190)) by (nonlinear_arith); 5191 },
        81 => { assert(midpoint_decodes_at_most(81, 5325) && !midpoint_decodes_at_most(81, 5324)) by (nonlinear_arith); 5325 },
        82 => { assert(midpoint_decodes_at_most(82, 5461) && !midpoint_decodes_at_most(82, 5460)) by (nonlinear_arith); 5461 },
        83 => { assert(midpoint_decodes_at_most(83, 5599) && !midpoint_decodes_at_most(83, 5598)) by (nonlinear_arith); 5599 },
        84 => { assert(midpoint_decodes_at_most(84, 5740) && !midpoint_decodes_at_most(84, 5739)) by (nonlinear_arith); 5740 },
        85 => { assert(midpoint_decodes_at_most(85, 5882) && !midpoint_decodes_at_most(85, 5881)) by (nonlinear_arith); 5882 },
        86 => { assert(midpoint_decodes_at_most(86, 6026) && !midpoint_decodes_at_most(86, 6025)) by (nonlinear_arith); 6026 },
        87 => { assert(midpoint_decodes_at_most(87, 6173) && !midpoint_decodes_at_most(87, 6172)) by (nonlinear_arith); 6173 },
        88 => { assert(midpoint_decodes_at_most(88, 6321) && !midpoint_decodes_at_most(88, 6320)) by (nonlinear_arith); 6321 },
        89 => { assert(midpoint_decodes_at_most(89, 6471) && !midpoint_decodes_at_most(89, 6470)) by (nonlinear_arith); 6471 },
        90 => { assert(midpoint_decodes_at_most(90, 6624) && !midpoint_decodes_at_most(90, 6623)) by (nonlinear_arith); 6624 },
        91 => { assert(midpoint_decodes_at_most(91, 6778) && !midpoint_decodes_at_most(91, 6777)) by (nonlinear_arith); 6778 },
        92 => { assert(midpoint_decodes_at_most(92, 6935) && !midpoint_decodes_at_most(92, 6934)) by (nonlinear_arith); 6935 },
        93 => { assert(midpoint_decodes_at_most(93, 7094) && !midpoint_decodes_at_most(93, 7093)) by (nonlinear_arith); 7094 },
        94 => { assert(midpoint_decodes_at_most(94, 7255) && !midpoint_decodes_at_most(94, 7254)) by (nonlinear_arith); 7255 },
        95 => { assert(midpoint_decodes_at_most(95, 7418) && !midpoint_decodes_at_most(95, 7417)) by (nonlinear_arith); 7418 },
        96 => { assert(midpoint_decodes_at_most(96, 7583) && !midpoint_decodes_at_most(96, 7582)) by (nonlinear_arith); 7583 },
        97 => { assert(midpoint_decodes_at_most(97, 7750) && !midpoint_decodes_at_most(97, 7749)) by (nonlinear_arith); 7750 },
        98 => { assert(midpoint_decodes_at_most(98, 7919) && !midpoint_decodes_at_most(98, 7918)) by (nonlinear_arith); 7919 },
        99 => { assert(midpoint_decodes_at_most(99, 8091) && !midpoint_decodes_at_most(99, 8090)) by (nonlinear_arith); 8091 },
        100 => { assert(midpoint_decodes_at_most(100, 8265) && !midpoint_decodes_at_most(100, 8264)) by (nonlinear_arith); 8265 },
        101 => { assert(midpoint_decodes_at_most(101, 8440) && !midpoint_decodes_at_most(101, 8439)) by (nonlinear_arith); 8440 },
        102 => { assert(midpoint_decodes_at_most(102, 8618) && !midpoint_decodes_at_most(102, 8617)) by (nonlinear_arith); 8618 },
        103 => { assert(midpoint_decodes_at_most(103, 8798) && !midpoint_decodes_at_most(103, 8797)) by (nonlinear_arith); 8798 },
        104 => { assert(midpoint_decodes_at_most(104, 8981) && !midpoint_decodes_at_most(104, 8980)) by (nonlinear_arith); 8981 },
        105 => { assert(midpoint_decodes_at_most(105, 9165) && !midpoint_decodes_at_most(105, 9164)) by (nonlinear_arith); 9165 },
        106 => { assert(midpoint_decodes_at_most(106, 9352) && !midpoint_decodes_at_most(106, 9351)) by (nonlinear_arith); 9352 },
        107 => { assert(midpoint_decodes_at_most(107, 9541) && !midpoint_decodes_at_most(107, 9540)) by (nonlinear_arith); 9541 },
        108 => { assert(midpoint_decodes_at_most(108, 9732) && !midpoint_decodes_at_most(108, 9731)) by (nonlinear_arith); 9732 },
        109 => { assert(midpoint_decodes_at_most(109, 9925) && !midpoint_decodes_at_most(109, 9924)) by (nonlinear_arith); 9925 },
        110 => { assert(midpoint_decodes_at_most(110, 10121) && !midpoint_decodes_at_most(110, 10120)) by (nonlinear_arith); 10121 },
        111 => { assert(midpoint_decodes_at_most(111, 10318) && !midpoint_decodes_at_most(111, 10317)) by (nonlinear_arith); 10318 },
        112 => { assert(midpoint_decodes_at_most(112, 10518) && !midpoint_decodes_at_most(112, 10517)) by (nonlinear_arith); 10518 },
        113 => { assert(midpoint_decodes_at_most(113, 10720) && !midpoint_decodes_at_most(113, 10719)) by (nonlinear_arith); 10720 },
        114 => { assert(midpoint_decodes_at_most(114, 10925) && !midpoint_decodes_at_most(114, 10924)) by (nonlinear_arith); 10925 },
        115 => { assert(midpoint_decodes_at_most(115, 11132) && !midpoint_decodes_at_most(115, 11131)) by (nonlinear_arith); 11132 },
        116 => { assert(midpoint_decodes_at_most(116, 11341) && !midpoint_decodes_at_most(116, 11340)) by (nonlinear_arith); 11341 },
        117 => { assert(midpoint_decodes_at_most(117, 11552) && !midpoint_decodes_at_most(117, 11551)) by (nonlinear_arith); 11552 },
        118 => { assert(midpoint_decodes_at_most(118, 11765) && !midpoint_decodes_at_most(118, 11764)) by (nonlinear_arith); 11765 },
        119 => { assert(midpoint_decodes_at_most(119, 11981) && !midpoint_decodes_at_most(119, 11980)) by (nonlinear_arith); 11981 },
        120 => { assert(midpoint_decodes_at_most(120, 12199) && !midpoint_decodes_at_most(120, 12198)) by (nonlinear_arith); 12199 },
        121 => { assert(midpoint_decodes_at_most(121, 12420) && !midpoint_decodes_at_most(121, 12419)) by (nonlinear_arith); 12420 },
        122 => { assert(midpoint_decodes_at_most(122, 12643) && !midpoint_decodes_at_most(122, 12642)) by (nonlinear_arith); 12643 },
        123 => { assert(midpoint_decodes_at_most(123, 12868) && !midpoint_decodes_at_most(123, 12867)) by (nonlinear_arith); 12868 },
        124 => { assert(midpoint_decodes_at_most(124, 13095) && !midpoint_decodes_at_most(124, 13094)) by (nonlinear_arith); 13095 },
        125 => { assert(midpoint_decodes_at_most(125, 13325) && !midpoint_decodes_at_most(125, 13324)) by (nonlinear_arith); 13325 },
        126 => { assert(midpoint_decodes_at_most(126, 13557) && !midpoint_decodes_at_most(126, 13556)) by (nonlinear_arith); 13557 },
        127 => { assert(midpoint_decodes_at_most(127, 13791) && !midpoint_decodes_at_most(127, 13790)) by (nonlinear_arith); 13791 },
        128 => { assert(midpoint_decodes_at_most(128, 14028) && !midpoint_decodes_at_most(128, 14027)) by (nonlinear_arith); 14028 },
        129 => { assert(midpoint_decodes_at_most(129, 14267) && !midpoint_decodes_at_most(129, 14266)) by (nonlinear_arith); 14267 },
        130 => { assert(midpoint_decodes_at_most(130, 14508) && !midpoint_decodes_at_most(130, 14507)) by (nonlinear_arith); 14508 },
        131 => { assert(midpoint_decodes_at_most(131, 14752) && !midpoint_decodes_at_most(131, 14751)) by (nonlinear_arith); 14752 },
        132 => { assert(midpoint_decodes_at_most(132, 14998) && !midpoint_decodes_at_most(132, 14997)) by (nonlinear_arith); 14998 },
        133 => { assert(midpoint_decodes_at_most(133, 15247) && !midpoint_decodes_at_most(133, 15246)) by (nonlinear_arith); 15247 },
        134 => { assert(midpoint_decodes_at_most(134, 15498) && !midpoint_decodes_at_most(134, 15497)) by (nonlinear_arith); 15498 },
        135 => { assert(midpoint_decodes_at_most(135, 15751) && !midpoint_decodes_at_most(135, 15750)) by (nonlinear_arith); 15751 },
        136 => { assert(midpoint_decodes_at_most(136, 16007) && !midpoint_decodes_at_most(136, 16006)) by (nonlinear_arith); 16007 },
        137 => { assert(midpoint_decodes_at_most(137, 16265) && !midpoint_decodes_at_most(137, 16264)) by (nonlinear_arith); 16265 },
        138 => { assert(midpoint_decodes_at_most(138, 16525) && !midpoint_decodes_at_most(138, 16524)) by (nonlinear_arith); 16525 },
        139 => { assert(midpoint_decodes_at_most(139, 16788) && !midpoint_decodes_at_most(139, 16787)) by (nonlinear_arith); 16788 },
        140 => { assert(midpoint_decodes_at_most(140, 17054) && !midpoint_decodes_at_most(140, 17053)) by (nonlinear_arith); 17054 },
        141 => { assert(midpoint_decodes_at_most(141, 17321) && !midpoint_decodes_at_most(141, 17320)) by (nonlinear_arith); 17321 },
        142 => { assert(midpoint_decodes_at_most(142, 17592) && !midpoint_decodes_at_most(142, 17591)) by (nonlinear_arith); 17592 },
        143 => { assert(midpoint_decodes_at_most(143, 17864) && !midpoint_decodes_at_most(143, 17863)) by (nonlinear_arith); 17864 },
        144 => { assert(midpoint_decodes_at_most(144, 18139) && !midpoint_decodes_at_most(144, 18138)) by (nonlinear_arith); 18139 },
        145 => { assert(midpoint_decodes_at_most(145, 18417) && !midpoint_decodes_at_most(145, 18416)) by (nonlinear_arith); 18417 },
        146 => { assert(midpoint_decodes_at_most(146, 18697) && !midpoint_decodes_at_most(146, 18696)) by (nonlinear_arith); 18697 },
        147 => { assert(midpoint_decodes_at_most(147, 18980) && !midpoint_decodes_at_most(147, 18979)) by (nonlinear_arith); 18980 },
        148 => { assert(midpoint_decodes_at_most(148, 19264) && !midpoint_decodes_at_most(148, 19263)) by (nonlinear_arith); 19264 },
        149 => { assert(midpoint_decodes_at_most(149, 19552) && !midpoint_decodes_at_most(149, 19551)) by (nonlinear_arith); 19552 },
        150 => { assert(midpoint_decodes_at_most(150, 19842) && !midpoint_decodes_at_most(150, 19841)) by (nonlinear_arith); 19842 },
        151 => { assert(midpoint_decodes_at_most(151, 20134) && !midpoint_decodes_at_most(151, 20133)) by (nonlinear_arith); 20134 },
        152 => { assert(midpoint_decodes_at_most(152, 20429) && !midpoint_decodes_at_most(152, 20428)) by (nonlinear_arith); 20429 },
        153 => { assert(midpoint_decodes_at_most(153, 20727) && !midpoint_decodes_at_most(153, 20726)) by (nonlinear_arith); 20727 },
        154 => { assert(midpoint_decodes_at_most(154, 21027) && !midpoint_decodes_at_most(154, 21026)) by (nonlinear_arith); 21027 },
        155 => { assert(midpoint_decodes_at_most(155, 21329) && !midpoint_decodes_at_most(155, 21328)) by (nonlinear_arith); 21329 },
        156 => { assert(midpoint_decodes_at_most(156, 21634) && !midpoint_decodes_at_most(156, 21633)) by (nonlinear_arith); 21634 },
        157 => { assert(midpoint_decodes_at_most(157, 21942) && !midpoint_decodes_at_most(157, 21941)) by (nonlinear_arith); 21942 },
        158 => { assert(midpoint_decodes_at_most(158, 22252) && !midpoint_decodes_at_most(158, 22251)) by (nonlinear_arith); 22252 },
        159 => { assert(midpoint_decodes_at_most(159, 22564) && !midpoint_decodes_at_most(159, 22563)) by (nonlinear_arith); 22564 },
        160 => { assert(midpoint_decodes_at_most(160, 22880) && !midpoint_decodes_at_most(160, 22879)) by (nonlinear_arith); 22880 },
        161 => { assert(midpoint_decodes_at_most(161, 23197) && !midpoint_decodes_at_most(161, 23196)) by (nonlinear_arith); 23197 },
        162 => { assert(midpoint_decodes_at_most(162, 23518) && !midpoint_decodes_at_most(162, 23517)) by (nonlinear_arith); 23518 },
        163 => { assert(midpoint_decodes_at_most(163, 23840) && !midpoint_decodes_at_most(163, 23839)) by (nonlinear_arith); 23840 },
        164 => { assert(midpoint_decodes_at_most(164, 24166) && !midpoint_decodes_at_most(164, 24165)) by (nonlinear_arith); 24166 },
        165 => { assert(midpoint_decodes_at_most(165, 24494) && !midpoint_decodes_at_most(165, 24493)) by (nonlinear_arith); 24494 },
        166 => { assert(midpoint_decodes_at_most(166, 24824) && !midpoint_decodes_at_most(166, 24823)) by (nonlinear_arith); 24824 },
        167 => { assert(midpoint_decodes_at_most(167, 25158) && !midpoint_decodes_at_most(167, 25157)) by (nonlinear_arith); 25158 },
        168 => { assert(midpoint_decodes_at_most(168, 25493) && !midpoint_decodes_at_most(168, 25492)) by (nonlinear_arith); 25493 },
        169 => { assert(midpoint_decodes_at_most(169, 25832) && !midpoint_decodes_at_most(169, 25831)) by (nonlinear_arith); 25832 },
        170 => { assert(midpoint_decodes_at_most(170, 26173) && !midpoint_decodes_at_most(170, 26172)) by (nonlinear_arith); 26173 },
        171 => { assert(midpoint_decodes_at_most(171, 26516) && !midpoint_decodes_at_most(171, 26515)) by (nonlinear_arith); 26516 },
        172 => { assert(midpoint_decodes_at_most(172, 26862) && !midpoint_decodes_at_most(172, 26861)) by (nonlinear_arith); 26862 },
        173 => { assert(midpoint_decodes_at_most(173, 27211) && !midpoint_decodes_at_most(173, 27210)) by (nonlinear_arith); 27211 },
        174 => { assert(midpoint_decodes_at_most(174, 27563) && !midpoint_decodes_at_most(174, 27562)) by (nonlinear_arith); 27563 },
        175 => { assert(midpoint_decodes_at_most(175, 27917) && !midpoint_decodes_at_most(175, 27916)) by (nonlinear_arith); 27917 },
        176 => { assert(midpoint_decodes_at_most(176, 28273) && !midpoint_decodes_at_most(176, 28272)) by (nonlinear_arith); 28273 },
        177 => { assert(midpoint_decodes_at_most(177, 28633) && !midpoint_decodes_at_most(177, 28632)) by (nonlinear_arith); 28633 },
        178 => { assert(midpoint_decodes_at_most(178, 28995) && !midpoint_decodes_at_most(178, 28994)) by (nonlinear_arith); 28995 },
        179 => { assert(midpoint_decodes_at_most(179, 29359) && !midpoint_decodes_at_most(179, 29358)) by (nonlinear_arith); 29359 },
        180 => { assert(midpoint_decodes_at_most(180, 29727) && !midpoint_decodes_at_most(180, 29726)) by (nonlinear_arith); 29727 },
        181 => { assert(midpoint_decodes_at_most(181, 30097) && !midpoint_decodes_at_most(181, 30096)) by (nonlinear_arith); 30097 },
        182 => { assert(midpoint_decodes_at_most(182, 30469) && !midpoint_decodes_at_most(182, 30468)) by (nonlinear_arith); 30469 },
        183 => { assert(midpoint_decodes_at_most(183, 30845) && !midpoint_decodes_at_most(183, 30844)) by (nonlinear_arith); 30845 },
        184 => { assert(midpoint_decodes_at_most(184, 31223) && !midpoint_decodes_at_most(184, 31222)) by (nonlinear_arith); 31223 },
        185 => { assert(midpoint_decodes_at_most(185, 31603) && !midpoint_decodes_at_most(185, 31602)) by (nonlinear_arith); 31603 },
        186 => { assert(midpoint_decodes_at_most(186, 31987) && !midpoint_decodes_at_most(186, 31986)) by (nonlinear_arith); 31987 },
        187 => { assert(midpoint_decodes_at_most(187, 32373) && !midpoint_decodes_at_most(187, 32372)) by (nonlinear_arith); 32373 },
        188 => { assert(midpoint_decodes_at_most(188, 32762) && !midpoint_decodes_at_most(188, 32761)) by (nonlinear_arith); 32762 },
        189 => { assert(midpoint_decodes_at_most(189, 33153) && !midpoint_decodes_at_most(189, 33152)) by (nonlinear_arith); 33153 },
        190 => { assert(midpoint_decodes_at_most(190, 33547) && !midpoint_decodes_at_most(190, 33546)) by (nonlinear_arith); 33547 },
        191 => { assert(midpoint_decodes_at_most(191, 33944) && !midpoint_decodes_at_most(191, 33943)) by (nonlinear_arith); 33944 },
        192 => { assert(midpoint_decodes_at_most(192, 34344) && !midpoint_decodes_at_most(192, 34343)) by (nonlinear_arith); 34344 },
        193 => { assert(midpoint_decodes_at_most(193, 34747) && !midpoint_decodes_at_most(193, 34746)) by (nonlinear_arith); 34747 },
        194 => { assert(midpoint_decodes_at_most(194, 35152) && !midpoint_decodes_at_most(194, 35151)) by (nonlinear_arith); 35152 },
        195 => { assert(midpoint_decodes_at_most(195, 35560) && !midpoint_decodes_at_most(195, 35559)) by (nonlinear_arith); 35560 },
        196 => { assert(midpoint_decodes_at_most(196, 35970) && !midpoint_decodes_at_most(196, 35969)) by (nonlinear_arith); 35970 },
        197 => { assert(midpoint_decodes_at_most(197, 36384) && !midpoint_decodes_at_most(197, 36383)) by (nonlinear_arith); 36384 },
        198 => { assert(midpoint_decodes_at_most(198, 36800) && !midpoint_decodes_at_most(198, 36799)) by (nonlinear_arith); 36800 },
        199 => { assert(midpoint_decodes_at_most(199, 37219) && !midpoint_decodes_at_most(199, 37218)) by (nonlinear_arith); 37219 },
        200 => { assert(midpoint_decodes_at_most(200, 37640) && !midpoint_decodes_at_most(200, 37639)) by (nonlinear_arith); 37640 },
        201 => { assert(midpoint_decodes_at_most(201, 38065) && !midpoint_decodes_at_most(201, 38064)) by (nonlinear_arith); 38065 },
        202 => { assert(midpoint_decodes_at_most(202, 38492) && !midpoint_decodes_at_most(202, 38491)) by (nonlinear_arith); 38492 },
        203 => { assert(midpoint_decodes_at_most(203, 38922) && !midpoint_decodes_at_most(203, 38921)) by (nonlinear_arith); 38922 },
        204 => { assert(midpoint_decodes_at_most(204, 39355) && !midpoint_decodes_at_most(204, 39354)) by (nonlinear_arith); 39355 },
        205 => { assert(midpoint_decodes_at_most(205, 39790) && !midpoint_decodes_at_most(205, 39789)) by (nonlinear_arith); 39790 },
        206 => { assert(midpoint_decodes_at_most(206, 40229) && !midpoint_decodes_at_most(206, 40228)) by (nonlinear_arith); 40229 },
        207 => { assert(midpoint_decodes_at_most(207, 40670) && !midpoint_decodes_at_most(207, 40669)) by (nonlinear_arith); 40670 },
        208 => { assert(midpoint_decodes_at_most(208, 41114) && !midpoint_decodes_at_most(208, 41113)) by (nonlinear_arith); 41114 },
        209 => { assert(midpoint_decodes_at_most(209, 41561) && !midpoint_decodes_at_most(209, 41560)) by (nonlinear_arith); 41561 },
        210 => { assert(midpoint_decodes_at_most(210, 42011) && !midpoint_decodes_at_most(210, 42010)) by (nonlinear_arith); 42011 },
        211 => { assert(midpoint_decodes_at_most(211, 42463) && !midpoint_decodes_at_most(211, 42462)) by (nonlinear_arith); 42463 },
        212 => { assert(midpoint_decodes_at_most(212, 42918) && !midpoint_decodes_at_most(212, 42917)) by (nonlinear_arith); 42918 },
        213 => { assert(midpoint_decodes_at_most(213, 43377) && !midpoint_decodes_at_most(213, 43376)) by (nonlinear_arith); 43377 },
        214 => { assert(midpoint_decodes_at_most(214, 43838) && !midpoint_decodes_at_most(214, 43837)) by (nonlinear_arith); 43838 },
        215 => { assert(midpoint_decodes_at_most(215, 44301) && !midpoint_decodes_at_most(215, 44300)) by (nonlinear_arith); 44301 },
        216 => { assert(midpoint_decodes_at_most(216, 44768) && !midpoint_decodes_at_most(216, 44767)) by (nonlinear_arith); 44768 },
        217 => { assert(midpoint_decodes_at_most(217, 45238) && !midpoint_decodes_at_most(217, 45237)) by (nonlinear_arith); 45238 },
        218 => { assert(midpoint_decodes_at_most(218, 45710) && !midpoint_decodes_at_most(218, 45709)) by (nonlinear_arith); 45710 },
        219 => { assert(midpoint_decodes_at_most(219, 46185) && !midpoint_decodes_at_most(219, 46184)) by (nonlinear_arith); 46185 },
        220 => { assert(midpoint_decodes_at_most(220, 46663) && !midpoint_decodes_at_most(220, 46662)) by (nonlinear_arith); 46663 },
        221 => { assert(midpoint_decodes_at_most(221, 47144) && !midpoint_decodes_at_most(221, 47143)) by (nonlinear_arith); 47144 },
        222 => { assert(midpoint_decodes_at_most(222, 47628) && !midpoint_decodes_at_most(222, 47627)) by (nonlinear_arith); 47628 },
        223 => { assert(midpoint_decodes_at_most(223, 48115) && !midpoint_decodes_at_most(223, 48114)) by (nonlinear_arith); 48115 },
        224 => { assert(midpoint_decodes_at_most(224, 48605) && !midpoint_decodes_at_most(224, 48604)) by (nonlinear_arith); 48605 },
        225 => { assert(midpoint_decodes_at_most(225, 49097) && !midpoint_decodes_at_most(225, 49096)) by (nonlinear_arith); 49097 },
        226 => { assert(midpoint_decodes_at_most(226, 49593) && !midpoint_decodes_at_most(226, 49592)) by (nonlinear_arith); 49593 },
        227 => { assert(midpoint_decodes_at_most(227, 50091) && !midpoint_decodes_at_most(227, 50090)) by (nonlinear_arith); 50091 },
        228 => { assert(midpoint_decodes_at_most(228, 50592) && !midpoint_decodes_at_most(228, 50591)) by (nonlinear_arith); 50592 },
        229 => { assert(midpoint_decodes_at_most(229, 51096) && !midpoint_decodes_at_most(229, 51095)) by (nonlinear_arith); 51096 },
        230 => { assert(midpoint_decodes_at_most(230, 51604) && !midpoint_decodes_at_most(230, 51603)) by (nonlinear_arith); 51604 },
        231 => { assert(midpoint_decodes_at_most(231, 52114) && !midpoint_decodes_at_most(231, 52113)) by (nonlinear_arith); 52114 },
        232 => { assert(midpoint_decodes_at_most(232, 52627) && !midpoint_decodes_at_most(232, 52626)) by (nonlinear_arith); 52627 },
        233 => { assert(midpoint_decodes_at_most(233, 53142) && !midpoint_decodes_at_most(233, 53141)) by (nonlinear_arith); 53142 },
        234 => { assert(midpoint_decodes_at_most(234, 53661) && !midpoint_decodes_at_most(234, 53660)) by (nonlinear_arith); 53661 },
        235 => { assert(midpoint_decodes_at_most(235, 54183) && !midpoint_decodes_at_most(235, 54182)) by (nonlinear_arith); 54183 },
        236 => { assert(midpoint_decodes_at_most(236, 54708) && !midpoint_decodes_at_most(236, 54707)) by (nonlinear_arith); 54708 },
        237 => { assert(midpoint_decodes_at_most(237, 55235) && !midpoint_decodes_at_most(237, 55234)) by (nonlinear_arith); 55235 },
        238 => { assert(midpoint_decodes_at_most(238, 55766) && !midpoint_decodes_at_most(238, 55765)) by (nonlinear_arith); 55766 },
        239 => { assert(midpoint_decodes_at_most(239, 56300) && !midpoint_decodes_at_most(239, 56299)) by (nonlinear_arith); 56300 },
        240 => { assert(midpoint_decodes_at_most(240, 56836) && !midpoint_decodes_at_most(240, 56835)) by (nonlinear_arith); 56836 },
        241 => { assert(midpoint_decodes_at_most(241, 57376) && !midpoint_decodes_at_most(241, 57375)) by (nonlinear_arith); 57376 },
        242 => { assert(midpoint_decodes_at_most(242, 57918) && !midpoint_decodes_at_most(242, 57917)) by (nonlinear_arith); 57918 },
        243 => { assert(midpoint_decodes_at_most(243, 58464) && !midpoint_decodes_at_most(243, 58463)) by (nonlinear_arith); 58464 },
        244 => { assert(midpoint_decodes_at_most(244, 59012) && !midpoint_decodes_at_most(244, 59011)) by (nonlinear_arith); 59012 },
        245 => { assert(midpoint_decodes_at_most(245, 59564) && !midpoint_decodes_at_most(245, 59563)) by (nonlinear_arith); 59564 },
        246 => { assert(midpoint_decodes_at_most(246, 60118) && !midpoint_decodes_at_most(246, 60117)) by (nonlinear_arith); 60118 },
        247 => { assert(midpoint_decodes_at_most(247, 60675) && !midpoint_decodes_at_most(247, 60674)) by (nonlinear_arith); 60675 },
        248 => { assert(midpoint_decodes_at_most(248, 61236) && !midpoint_decodes_at_most(248, 61235)) by (nonlinear_arith); 61236 },
        249 => { assert(midpoint_decodes_at_most(249, 61799) && !midpoint_decodes_at_most(249, 61798)) by (nonlinear_arith); 61799 },
        250 => { assert(midpoint_decodes_at_most(250, 62366) && !midpoint_decodes_at_most(250, 62365)) by (nonlinear_arith); 62366 },
        251 => { assert(midpoint_decodes_at_most(251, 62935) && !midpoint_decodes_at_most(251, 62934)) by (nonlinear_arith); 62935 },
        252 => { assert(midpoint_decodes_at_most(252, 63508) && !midpoint_decodes_at_most(252, 63507)) by (nonlinear_arith); 63508 },
        253 => { assert(midpoint_decodes_at_most(253, 64083) && !midpoint_decodes_at_most(253, 64082)) by (nonlinear_arith); 64083 },
        254 => { assert(midpoint_decodes_at_most(254, 64662) && !midpoint_decodes_at_most(254, 64661)) by (nonlinear_arith); 64662 },
        _ => { assert(midpoint_decodes_at_most(255, 65244) && !midpoint_decodes_at_most(255, 65243)) by (nonlinear_arith); 65244 },
    }
}

/// Whether `c` is the 8-bit sRGB value nearest to the 16-bit linear level `l`:
/// the largest `c` whose lower midpoint decodes at or below `l`, that is
/// `255 * encode(l / 65535)` rounded to the nearest integer.
pub open spec fn is_encoded_value(l: int, c: int) -> bool {
    &&& 0 <= c <= 255
    &&& c == 0 || midpoint_decodes_at_most(c, l)
    &&& forall|k: int| c < k <= 255 ==> !#[trigger] midpoint_decodes_at_most(k, l)
}

proof fn lemma_pow5_monotone(a: int, b: int)
    requires
        0 <= a <= b,
    ensures
        pow5(a) <= pow5(b),
{
    assert(a * a <= b * b) by (nonlinear_arith)
        requires
            0 <= a <= b,
    ;
    assert(a * a * a <= b * b * b) by (nonlinear_arith)
        requires
            0 <= a <= b,
            a * a <= b * b,
    ;
    assert(a * a * a * a <= b * b * b * b) by (nonlinear_arith)
        requires
            0 <= a <= b,
            a * a * a <= b * b * b,
    ;
    assert(a * a * a * a * a <= b * b * b * b * b) by (nonlinear_arith)
        requires
            0 <= a <= b,
            a * a * a * a <= b * b * b * b,
    ;
}

/// A midpoint that decodes at or below `a` decodes at or below every `b >= a`.
proof fn lemma_midpoint_monotone(c: int, a: int, b: int)
    requires
        0 <= a <= b,
        midpoint_decodes_at_most(c, a),
    ensures
        midpoint_decodes_at_most(c, b),
{
    if c <= 10 {
        assert(a * 510 * 1292 <= b * 510 * 1292) by (nonlinear_arith)
            requires
                a <= b,
        ;
    } else {
        lemma_pow5_monotone(a, b);
        assert(pow12(10761) > 0) by (nonlinear_arith);
        assert(pow5(a) * pow12(10761) <= pow5(b) * pow12(10761)) by (nonlinear_arith)
            requires
                pow5(a) <= pow5(b),
                pow12(10761) > 0,
        ;
    }
}

proof fn lemma_pow12_monotone(a: int, b: int)
    requires
        0 <= a <= b,
    ensures
        pow12(a) <= pow12(b),
{
    lemma_pow5_monotone(a, b);
    assert(0 <= pow5(a)) by (nonlinear_arith)
        requires
            0 <= a,
    ;
    assert(pow5(a) * pow5(a) * a * a <= pow5(b) * pow5(b) * b * b) by (nonlinear_arith)
        requires
            0 <= a <= b,
            0 <= pow5(a) <= pow5(b),
    ;
}

/// A midpoint that decodes at or below `l` stays so for every smaller 8-bit value.
proof fn lemma_midpoint_monotone_in_value(k1: int, k2: int, l: int)
    requires
        1 <= k1 <= k2 <= 255,
        0 <= l,
        midpoint_decodes_at_most(k2, l),
    ensures
        midpoint_decodes_at_most(k1, l),
    decreases 2 * k2 - k1,
{
    if k2 <= 10 {
        assert(65535 * 100 * (2 * k1 - 1) <= 65535 * 100 * (2 * k2 - 1)) by (nonlinear_arith)
            requires
                k1 <= k2,
        ;
    } else if k1 >= 11 {
        lemma_pow12_monotone(40 * k1 + 541, 40 * k2 + 541);
        assert(pow5(65535) * pow12(40 * k1 + 541) <= pow5(65535) * pow12(40 * k2 + 541))
            by (nonlinear_arith)
            requires
                pow12(40 * k1 + 541) <= pow12(40 * k2 + 541),
        ;
    } else {
        if k2 > 11 {
            lemma_midpoint_monotone_in_value(11, k2, l);
        }
        assert(!midpoint_decodes_at_most(11, 208)) by (nonlinear_arith);
        if l <= 208 {
            lemma_midpoint_monotone(11, l, 208);
        }
        assert(65535 * 100 * (2 * 10 - 1) <= l * 510 * 1292) by (nonlinear_arith)
            requires
                l >= 209,
        ;
        if k1 < 10 {
            lemma_midpoint_monotone_in_value(k1, 10, l);
        }
    }
}

/// A linear level encodes to exactly one 8-bit sRGB value.
pub proof fn lemma_encoded_value_unique(l: int, c1: int, c2: int)
    requires
        is_encoded_value(l, c1),
        is_encoded_value(l, c2),
    ensures
        c1 == c2,
{
    if c1 < c2 {
        assert(!midpoint_decodes_at_most(c2, l));
    } else if c2 < c1 {
        assert(!midpoint_decodes_at_most(c1, l));
    }
}

/// The 8-bit sRGB value nearest to the 16-bit linear level `l`.
pub fn encode_level(l: u16) -> (c: u8)
    ensures
        is_encoded_value(l as int, c as int),
{
    let mut c: u8 = 255;
    while c > 0
        invariant
            forall|k: int| c < k <= 255 ==> !#[trigger] midpoint_decodes_at_most(k, l as int),
        decreases c,
    {
        let t = midpoint_level(c);
        if t <= l {
            proof {
                lemma_midpoint_monotone(c as int, t as int, l as int);
            }
            return c;
        }
        proof {
            if midpoint_decodes_at_most(c as int, l as int) {
                lemma_midpoint_monotone(c as int, l as int, t - 1);
            }
        }
        c = c - 1;
    }
    c
}

} // verus!
