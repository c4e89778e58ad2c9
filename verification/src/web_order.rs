//! The order of the web color names, and what follows from it: no name
//! occurs twice, so each name leads to one color.

use crate::color::Color;
use crate::web::{color_at, color_named, first_colored, first_named, name_at, name_of, WEB_COLOR_COUNT};
use vstd::prelude::*;

verus! {

/// Whether `a` and `b` agree before position `k` and `a` is the lesser of
/// the two at `k`: it ends there, or holds the lesser character.
pub open spec fn parts_at(a: Seq<char>, b: Seq<char>, k: int) -> bool {
    &&& 0 <= k <= a.len()
    &&& k < b.len()
    &&& forall|j: int| 0 <= j < k ==> a[j] == b[j]
    &&& (k < a.len() ==> (a[k] as u32) < (b[k] as u32))
}

/// Whether `a` comes before `b` in alphabetical order.
pub open spec fn precedes(a: Seq<char>, b: Seq<char>) -> bool {
    exists|k: int| parts_at(a, b, k)
}

/// Alphabetical order is transitive.
proof fn lemma_precedes_transitive(a: Seq<char>, b: Seq<char>, c: Seq<char>)
    requires
        precedes(a, b),
        precedes(b, c),
    ensures
        precedes(a, c),
{
    let k1 = choose|k: int| parts_at(a, b, k);
    let k2 = choose|k: int| parts_at(b, c, k);
    let k = if k1 <= k2 {
        k1
    } else {
        k2
    };
    assert(parts_at(a, c, k));
}

/// No string comes before itself.
proof fn lemma_precedes_irreflexive(a: Seq<char>)
    ensures
        !precedes(a, a),
{
    if precedes(a, a) {
        let k = choose|k: int| parts_at(a, a, k);
        assert(false);
    }
}

/// Each name comes before the next one in the table.
proof fn lemma_next_name_follows(i: int)
    requires
        0 <= i < WEB_COLOR_COUNT - 1,
    ensures
        precedes(name_at(i), name_at(i + 1)),
{
    if i == 0 {
        reveal_strlit("aliceblue");
        reveal_strlit("antiquewhite");
        assert(parts_at(name_at(0), name_at(1), 1));
    } else if i == 1 {
        reveal_strlit("antiquewhite");
        reveal_strlit("aqua");
        assert(parts_at(name_at(1), name_at(2), 1));
    } else if i == 2 {
        reveal_strlit("aqua");
        reveal_strlit("aquamarine");
        assert(parts_at(name_at(2), name_at(3), 4));
    } else if i == 3 {
        reveal_strlit("aquamarine");
        reveal_strlit("azure");
        assert(parts_at(name_at(3), name_at(4), 1));
    } else if i == 4 {
        reveal_strlit("azure");
        reveal_strlit("beige");
        assert(parts_at(name_at(4), name_at(5), 0));
    } else if i == 5 {
        reveal_strlit("beige");
        reveal_strlit("bisque");
        assert(parts_at(name_at(5), name_at(6), 1));
    } else if i == 6 {
        reveal_strlit("bisque");
        reveal_strlit("black");
        assert(parts_at(name_at(6), name_at(7), 1));
    } else if i == 7 {
        reveal_strlit("black");
        reveal_strlit("blanchedalmond");
        assert(parts_at(name_at(7), name_at(8), 3));
    } else if i == 8 {
        reveal_strlit("blanchedalmond");
        reveal_strlit("blue");
        assert(parts_at(name_at(8), name_at(9), 2));
    } else if i == 9 {
        reveal_strlit("blue");
        reveal_strlit("blueviolet");
        assert(parts_at(name_at(9), name_at(10), 4));
    } else if i == 10 {
        reveal_strlit("blueviolet");
        reveal_strlit("brown");
        assert(parts_at(name_at(10), name_at(11), 1));
    } else if i == 11 {
        reveal_strlit("brown");
        reveal_strlit("burlywood");
        assert(parts_at(name_at(11), name_at(12), 1));
    } else if i == 12 {
        reveal_strlit("burlywood");
        reveal_strlit("cadetblue");
        assert(parts_at(name_at(12), name_at(13), 0));
    } else if i == 13 {
        reveal_strlit("cadetblue");
        reveal_strlit("chartreuse");
        assert(parts_at(name_at(13), name_at(14), 1));
    } else if i == 14 {
        reveal_strlit("chartreuse");
        reveal_strlit("chocolate");
        assert(parts_at(name_at(14), name_at(15), 2));
    } else if i == 15 {
        reveal_strlit("chocolate");
        reveal_strlit("coral");
        assert(parts_at(name_at(15), name_at(16), 1));
    } else if i == 16 {
        reveal_strlit("coral");
        reveal_strlit("cornflowerblue");
        assert(parts_at(name_at(16), name_at(17), 3));
    } else if i == 17 {
        reveal_strlit("cornflowerblue");
        reveal_strlit("cornsilk");
        assert(parts_at(name_at(17), name_at(18), 4));
    } else if i == 18 {
        reveal_strlit("cornsilk");
        reveal_strlit("crimson");
        assert(parts_at(name_at(18), name_at(19), 1));
    } else if i == 19 {
        reveal_strlit("crimson");
        reveal_strlit("cyan");
        assert(parts_at(name_at(19), name_at(20), 1));
    } else if i == 20 {
        reveal_strlit("cyan");
        reveal_strlit("darkblue");
        assert(parts_at(name_at(20), name_at(21), 0));
    } else if i == 21 {
        reveal_strlit("darkblue");
        reveal_strlit("darkcyan");
        assert(parts_at(name_at(21), name_at(22), 4));
    } else if i == 22 {
        reveal_strlit("darkcyan");
        reveal_strlit("darkgoldenrod");
        assert(parts_at(name_at(22), name_at(23), 4));
    } else if i == 23 {
        reveal_strlit("darkgoldenrod");
        reveal_strlit("darkgray");
        assert(parts_at(name_at(23), name_at(24), 5));
    } else if i == 24 {
        reveal_strlit("darkgray");
        reveal_strlit("darkgreen");
        assert(parts_at(name_at(24), name_at(25), 6));
    } else if i == 25 {
        reveal_strlit("darkgreen");
        reveal_strlit("darkgrey");
        assert(parts_at(name_at(25), name_at(26), 7));
    } else if i == 26 {
        reveal_strlit("darkgrey");
        reveal_strlit("darkkhaki");
        assert(parts_at(name_at(26), name_at(27), 4));
    } else if i == 27 {
        reveal_strlit("darkkhaki");
        reveal_strlit("darkmagenta");
        assert(parts_at(name_at(27), name_at(28), 4));
    } else if i == 28 {
        reveal_strlit("darkmagenta");
        reveal_strlit("darkolivegreen");
        assert(parts_at(name_at(28), name_at(29), 4));
    } else if i == 29 {
        reveal_strlit("darkolivegreen");
        reveal_strlit("darkorange");
        assert(parts_at(name_at(29), name_at(30), 5));
    } else if i == 30 {
        reveal_strlit("darkorange");
        reveal_strlit("darkorchid");
        assert(parts_at(name_at(30), name_at(31), 6));
    } else if i == 31 {
        reveal_strlit("darkorchid");
        reveal_strlit("darkred");
        assert(parts_at(name_at(31), name_at(32), 4));
    } else if i == 32 {
        reveal_strlit("darkred");
        reveal_strlit("darksalmon");
        assert(parts_at(name_at(32), name_at(33), 4));
    } else if i == 33 {
        reveal_strlit("darksalmon");
        reveal_strlit("darkseagreen");
        assert(parts_at(name_at(33), name_at(34), 5));
    } else if i == 34 {
        reveal_strlit("darkseagreen");
        reveal_strlit("darkslateblue");
        assert(parts_at(name_at(34), name_at(35), 5));
    } else if i == 35 {
        reveal_strlit("darkslateblue");
        reveal_strlit("darkslategray");
        assert(parts_at(name_at(35), name_at(36), 9));
    } else if i == 36 {
        reveal_strlit("darkslategray");
        reveal_strlit("darkslategrey");
        assert(parts_at(name_at(36), name_at(37), 11));
    } else if i == 37 {
        reveal_strlit("darkslategrey");
        reveal_strlit("darkturquoise");
        assert(parts_at(name_at(37), name_at(38), 4));
    } else if i == 38 {
        reveal_strlit("darkturquoise");
        reveal_strlit("darkviolet");
        assert(parts_at(name_at(38), name_at(39), 4));
    } else if i == 39 {
        reveal_strlit("darkviolet");
        reveal_strlit("deeppink");
        assert(parts_at(name_at(39), name_at(40), 1));
    } else if i == 40 {
        reveal_strlit("deeppink");
        reveal_strlit("deepskyblue");
        assert(parts_at(name_at(40), name_at(41), 4));
    } else if i == 41 {
        reveal_strlit("deepskyblue");
        reveal_strlit("dimgray");
        assert(parts_at(name_at(41), name_at(42), 1));
    } else if i == 42 {
        reveal_strlit("dimgray");
        reveal_strlit("dimgrey");
        assert(parts_at(name_at(42), name_at(43), 5));
    } else if i == 43 {
        reveal_strlit("dimgrey");
        reveal_strlit("dodgerblue");
        assert(parts_at(name_at(43), name_at(44), 1));
    } else if i == 44 {
        reveal_strlit("dodgerblue");
        reveal_strlit("firebrick");
        assert(parts_at(name_at(44), name_at(45), 0));
    } else if i == 45 {
        reveal_strlit("firebrick");
        reveal_strlit("floralwhite");
        assert(parts_at(name_at(45), name_at(46), 1));
    } else if i == 46 {
        reveal_strlit("floralwhite");
        reveal_strlit("forestgreen");
        assert(parts_at(name_at(46), name_at(47), 1));
    } else if i == 47 {
        reveal_strlit("forestgreen");
        reveal_strlit("fuchsia");
        assert(parts_at(name_at(47), name_at(48), 1));
    } else if i == 48 {
        reveal_strlit("fuchsia");
        reveal_strlit("gainsboro");
        assert(parts_at(name_at(48), name_at(49), 0));
    } else if i == 49 {
        reveal_strlit("gainsboro");
        reveal_strlit("ghostwhite");
        assert(parts_at(name_at(49), name_at(50), 1));
    } else if i == 50 {
        reveal_strlit("ghostwhite");
        reveal_strlit("gold");
        assert(parts_at(name_at(50), name_at(51), 1));
    } else if i == 51 {
        reveal_strlit("gold");
        reveal_strlit("goldenrod");
        assert(parts_at(name_at(51), name_at(52), 4));
    } else if i == 52 {
        reveal_strlit("goldenrod");
        reveal_strlit("gray");
        assert(parts_at(name_at(52), name_at(53), 1));
    } else if i == 53 {
        reveal_strlit("gray");
        reveal_strlit("green");
        assert(parts_at(name_at(53), name_at(54), 2));
    } else if i == 54 {
        reveal_strlit("green");
        reveal_strlit("greenyellow");
        assert(parts_at(name_at(54), name_at(55), 5));
    } else if i == 55 {
        reveal_strlit("greenyellow");
        reveal_strlit("grey");
        assert(parts_at(name_at(55), name_at(56), 3));
    } else if i == 56 {
        reveal_strlit("grey");
        reveal_strlit("honeydew");
        assert(parts_at(name_at(56), name_at(57), 0));
    } else if i == 57 {
        reveal_strlit("honeydew");
        reveal_strlit("hotpink");
        assert(parts_at(name_at(57), name_at(58), 2));
    } else if i == 58 {
        reveal_strlit("hotpink");
        reveal_strlit("indianred");
        assert(parts_at(name_at(58), name_at(59), 0));
    } else if i == 59 {
        reveal_strlit("indianred");
        reveal_strlit("indigo");
        assert(parts_at(name_at(59), name_at(60), 4));
    } else if i == 60 {
        reveal_strlit("indigo");
        reveal_strlit("ivory");
        assert(parts_at(name_at(60), name_at(61), 1));
    } else if i == 61 {
        reveal_strlit("ivory");
        reveal_strlit("khaki");
        assert(parts_at(name_at(61), name_at(62), 0));
    } else if i == 62 {
        reveal_strlit("khaki");
        reveal_strlit("lavender");
        assert(parts_at(name_at(62), name_at(63), 0));
    } else if i == 63 {
        reveal_strlit("lavender");
        reveal_strlit("lavenderblush");
        assert(parts_at(name_at(63), name_at(64), 8));
    } else if i == 64 {
        reveal_strlit("lavenderblush");
        reveal_strlit("lawngreen");
        assert(parts_at(name_at(64), name_at(65), 2));
    } else if i == 65 {
        reveal_strlit("lawngreen");
        reveal_strlit("lemonchiffon");
        assert(parts_at(name_at(65), name_at(66), 1));
    } else if i == 66 {
        reveal_strlit("lemonchiffon");
        reveal_strlit("lightblue");
        assert(parts_at(name_at(66), name_at(67), 1));
    } else if i == 67 {
        reveal_strlit("lightblue");
        reveal_strlit("lightcoral");
        assert(parts_at(name_at(67), name_at(68), 5));
    } else if i == 68 {
        reveal_strlit("lightcoral");
        reveal_strlit("lightcyan");
        assert(parts_at(name_at(68), name_at(69), 6));
    } else if i == 69 {
        reveal_strlit("lightcyan");
        reveal_strlit("lightgoldenrodyellow");
        assert(parts_at(name_at(69), name_at(70), 5));
    } else if i == 70 {
        reveal_strlit("lightgoldenrodyellow");
        reveal_strlit("lightgray");
        assert(parts_at(name_at(70), name_at(71), 6));
    } else if i == 71 {
        reveal_strlit("lightgray");
        reveal_strlit("lightgreen");
        assert(parts_at(name_at(71), name_at(72), 7));
    } else if i == 72 {
        reveal_strlit("lightgreen");
        reveal_strlit("lightgrey");
        assert(parts_at(name_at(72), name_at(73), 8));
    } else if i == 73 {
        reveal_strlit("lightgrey");
        reveal_strlit("lightpink");
        assert(parts_at(name_at(73), name_at(74), 5));
    } else if i == 74 {
        reveal_strlit("lightpink");
        reveal_strlit("lightsalmon");
        assert(parts_at(name_at(74), name_at(75), 5));
    } else if i == 75 {
        reveal_strlit("lightsalmon");
        reveal_strlit("lightseagreen");
        assert(parts_at(name_at(75), name_at(76), 6));
    } else if i == 76 {
        reveal_strlit("lightseagreen");
        reveal_strlit("lightskyblue");
        assert(parts_at(name_at(76), name_at(77), 6));
    } else if i == 77 {
        reveal_strlit("lightskyblue");
        reveal_strlit("lightslategray");
        assert(parts_at(name_at(77), name_at(78), 6));
    } else if i == 78 {
        reveal_strlit("lightslategray");
        reveal_strlit("lightslategrey");
        assert(parts_at(name_at(78), name_at(79), 12));
    } else if i == 79 {
        reveal_strlit("lightslategrey");
        reveal_strlit("lightsteelblue");
        assert(parts_at(name_at(79), name_at(80), 6));
    } else if i == 80 {
        reveal_strlit("lightsteelblue");
        reveal_strlit("lightyellow");
        assert(parts_at(name_at(80), name_at(81), 5));
    } else if i == 81 {
        reveal_strlit("lightyellow");
        reveal_strlit("lime");
        assert(parts_at(name_at(81), name_at(82), 2));
    } else if i == 82 {
        reveal_strlit("lime");
        reveal_strlit("limegreen");
        assert(parts_at(name_at(82), name_at(83), 4));
    } else if i == 83 {
        reveal_strlit("limegreen");
        reveal_strlit("linen");
        assert(parts_at(name_at(83), name_at(84), 2));
    } else if i == 84 {
        reveal_strlit("linen");
        reveal_strlit("magenta");
        assert(parts_at(name_at(84), name_at(85), 0));
    } else if i == 85 {
        reveal_strlit("magenta");
        reveal_strlit("maroon");
        assert(parts_at(name_at(85), name_at(86), 2));
    } else if i == 86 {
        reveal_strlit("maroon");
        reveal_strlit("mediumaquamarine");
        assert(parts_at(name_at(86), name_at(87), 1));
    } else if i == 87 {
        reveal_strlit("mediumaquamarine");
        reveal_strlit("mediumblue");
        assert(parts_at(name_at(87), name_at(88), 6));
    } else if i == 88 {
        reveal_strlit("mediumblue");
        reveal_strlit("mediumorchid");
        assert(parts_at(name_at(88), name_at(89), 6));
    } else if i == 89 {
        reveal_strlit("mediumorchid");
        reveal_strlit("mediumpurple");
        assert(parts_at(name_at(89), name_at(90), 6));
    } else if i == 90 {
        reveal_strlit("mediumpurple");
        reveal_strlit("mediumseagreen");
        assert(parts_at(name_at(90), name_at(91), 6));
    } else if i == 91 {
        reveal_strlit("mediumseagreen");
        reveal_strlit("mediumslateblue");
        assert(parts_at(name_at(91), name_at(92), 7));
    } else if i == 92 {
        reveal_strlit("mediumslateblue");
        reveal_strlit("mediumspringgreen");
        assert(parts_at(name_at(92), name_at(93), 7));
    } else if i == 93 {
        reveal_strlit("mediumspringgreen");
        reveal_strlit("mediumturquoise");
        assert(parts_at(name_at(93), name_at(94), 6));
    } else if i == 94 {
        reveal_strlit("mediumturquoise");
        reveal_strlit("mediumvioletred");
        assert(parts_at(name_at(94), name_at(95), 6));
    } else if i == 95 {
        reveal_strlit("mediumvioletred");
        reveal_strlit("midnightblue");
        assert(parts_at(name_at(95), name_at(96), 1));
    } else if i == 96 {
        reveal_strlit("midnightblue");
        reveal_strlit("mintcream");
        assert(parts_at(name_at(96), name_at(97), 2));
    } else if i == 97 {
        reveal_strlit("mintcream");
        reveal_strlit("mistyrose");
        assert(parts_at(name_at(97), name_at(98), 2));
    } else if i == 98 {
        reveal_strlit("mistyrose");
        reveal_strlit("moccasin");
        assert(parts_at(name_at(98), name_at(99), 1));
    } else if i == 99 {
        reveal_strlit("moccasin");
        reveal_strlit("navajowhite");
        assert(parts_at(name_at(99), name_at(100), 0));
    } else if i == 100 {
        reveal_strlit("navajowhite");
        reveal_strlit("navy");
        assert(parts_at(name_at(100), name_at(101), 3));
    } else if i == 101 {
        reveal_strlit("navy");
        reveal_strlit("oldlace");
        assert(parts_at(name_at(101), name_at(102), 0));
    } else if i == 102 {
        reveal_strlit("oldlace");
        reveal_strlit("olive");
        assert(parts_at(name_at(102), name_at(103), 2));
    } else if i == 103 {
        reveal_strlit("olive");
        reveal_strlit("olivedrab");
        assert(parts_at(name_at(103), name_at(104), 5));
    } else if i == 104 {
        reveal_strlit("olivedrab");
        reveal_strlit("orange");
        assert(parts_at(name_at(104), name_at(105), 1));
    } else if i == 105 {
        reveal_strlit("orange");
        reveal_strlit("orangered");
        assert(parts_at(name_at(105), name_at(106), 6));
    } else if i == 106 {
        reveal_strlit("orangered");
        reveal_strlit("orchid");
        assert(parts_at(name_at(106), name_at(107), 2));
    } else if i == 107 {
        reveal_strlit("orchid");
        reveal_strlit("palegoldenrod");
        assert(parts_at(name_at(107), name_at(108), 0));
    } else if i == 108 {
        reveal_strlit("palegoldenrod");
        reveal_strlit("palegreen");
        assert(parts_at(name_at(108), name_at(109), 5));
    } else if i == 109 {
        reveal_strlit("palegreen");
        reveal_strlit("paleturquoise");
        assert(parts_at(name_at(109), name_at(110), 4));
    } else if i == 110 {
        reveal_strlit("paleturquoise");
        reveal_strlit("palevioletred");
        assert(parts_at(name_at(110), name_at(111), 4));
    } else if i == 111 {
        reveal_strlit("palevioletred");
        reveal_strlit("papayawhip");
        assert(parts_at(name_at(111), name_at(112), 2));
    } else if i == 112 {
        reveal_strlit("papayawhip");
        reveal_strlit("peachpuff");
        assert(parts_at(name_at(112), name_at(113), 1));
    } else if i == 113 {
        reveal_strlit("peachpuff");
        reveal_strlit("peru");
        assert(parts_at(name_at(113), name_at(114), 2));
    } else if i == 114 {
        reveal_strlit("peru");
        reveal_strlit("pink");
        assert(parts_at(name_at(114), name_at(115), 1));
    } else if i == 115 {
        reveal_strlit("pink");
        reveal_strlit("plum");
        assert(parts_at(name_at(115), name_at(116), 1));
    } else if i == 116 {
        reveal_strlit("plum");
        reveal_strlit("powderblue");
        assert(parts_at(name_at(116), name_at(117), 1));
    } else if i == 117 {
        reveal_strlit("powderblue");
        reveal_strlit("purple");
        assert(parts_at(name_at(117), name_at(118), 1));
    } else if i == 118 {
        reveal_strlit("purple");
        reveal_strlit("red");
        assert(parts_at(name_at(118), name_at(119), 0));
    } else if i == 119 {
        reveal_strlit("red");
        reveal_strlit("rosybrown");
        assert(parts_at(name_at(119), name_at(120), 1));
    } else if i == 120 {
        reveal_strlit("rosybrown");
        reveal_strlit("royalblue");
        assert(parts_at(name_at(120), name_at(121), 2));
    } else if i == 121 {
        reveal_strlit("royalblue");
        reveal_strlit("saddlebrown");
        assert(parts_at(name_at(121), name_at(122), 0));
    } else if i == 122 {
        reveal_strlit("saddlebrown");
        reveal_strlit("salmon");
        assert(parts_at(name_at(122), name_at(123), 2));
    } else if i == 123 {
        reveal_strlit("salmon");
        reveal_strlit("sandybrown");
        assert(parts_at(name_at(123), name_at(124), 2));
    } else if i == 124 {
        reveal_strlit("sandybrown");
        reveal_strlit("seagreen");
        assert(parts_at(name_at(124), name_at(125), 1));
    } else if i == 125 {
        reveal_strlit("seagreen");
        reveal_strlit("seashell");
        assert(parts_at(name_at(125), name_at(126), 3));
    } else if i == 126 {
        reveal_strlit("seashell");
        reveal_strlit("sienna");
        assert(parts_at(name_at(126), name_at(127), 1));
    } else if i == 127 {
        reveal_strlit("sienna");
        reveal_strlit("silver");
        assert(parts_at(name_at(127), name_at(128), 2));
    } else if i == 128 {
        reveal_strlit("silver");
        reveal_strlit("skyblue");
        assert(parts_at(name_at(128), name_at(129), 1));
    } else if i == 129 {
        reveal_strlit("skyblue");
        reveal_strlit("slateblue");
        assert(parts_at(name_at(129), name_at(130), 1));
    } else if i == 130 {
        reveal_strlit("slateblue");
        reveal_strlit("slategray");
        assert(parts_at(name_at(130), name_at(131), 5));
    } else if i == 131 {
        reveal_strlit("slategray");
        reveal_strlit("slategrey");
        assert(parts_at(name_at(131), name_at(132), 7));
    } else if i == 132 {
        reveal_strlit("slategrey");
        reveal_strlit("snow");
        assert(parts_at(name_at(132), name_at(133), 1));
    } else if i == 133 {
        reveal_strlit("snow");
        reveal_strlit("springgreen");
        assert(parts_at(name_at(133), name_at(134), 1));
    } else if i == 134 {
        reveal_strlit("springgreen");
        reveal_strlit("steelblue");
        assert(parts_at(name_at(134), name_at(135), 1));
    } else if i == 135 {
        reveal_strlit("steelblue");
        reveal_strlit("tan");
        assert(parts_at(name_at(135), name_at(136), 0));
    } else if i == 136 {
        reveal_strlit("tan");
        reveal_strlit("teal");
        assert(parts_at(name_at(136), name_at(137), 1));
    } else if i == 137 {
        reveal_strlit("teal");
        reveal_strlit("thistle");
        assert(parts_at(name_at(137), name_at(138), 1));
    } else if i == 138 {
        reveal_strlit("thistle");
        reveal_strlit("tomato");
        assert(parts_at(name_at(138), name_at(139), 1));
    } else if i == 139 {
        reveal_strlit("tomato");
        reveal_strlit("turquoise");
        assert(parts_at(name_at(139), name_at(140), 1));
    } else if i == 140 {
        reveal_strlit("turquoise");
        reveal_strlit("violet");
        assert(parts_at(name_at(140), name_at(141), 0));
    } else if i == 141 {
        reveal_strlit("violet");
        reveal_strlit("wheat");
        assert(parts_at(name_at(141), name_at(142), 0));
    } else if i == 142 {
        reveal_strlit("wheat");
        reveal_strlit("white");
        assert(parts_at(name_at(142), name_at(143), 2));
    } else if i == 143 {
        reveal_strlit("white");
        reveal_strlit("whitesmoke");
        assert(parts_at(name_at(143), name_at(144), 5));
    } else if i == 144 {
        reveal_strlit("whitesmoke");
        reveal_strlit("yellow");
        assert(parts_at(name_at(144), name_at(145), 0));
    } else {
        reveal_strlit("yellow");
        reveal_strlit("yellowgreen");
        assert(parts_at(name_at(145), name_at(146), 6));
    }
}

/// The names are in strictly ascending order.
pub proof fn lemma_names_ascend(i: int, j: int)
    requires
        0 <= i < j < WEB_COLOR_COUNT,
    ensures
        precedes(name_at(i), name_at(j)),
    decreases j - i,
{
    lemma_next_name_follows(j - 1);
    if i < j - 1 {
        lemma_names_ascend(i, j - 1);
        lemma_precedes_transitive(name_at(i), name_at(j - 1), name_at(j));
    }
}

/// No name occurs twice in the table.
pub proof fn lemma_names_differ(i: int, j: int)
    requires
        0 <= i < WEB_COLOR_COUNT,
        0 <= j < WEB_COLOR_COUNT,
        i != j,
    ensures
        name_at(i) != name_at(j),
{
    if i < j {
        lemma_names_ascend(i, j);
        lemma_precedes_irreflexive(name_at(i));
    } else {
        lemma_names_ascend(j, i);
        lemma_precedes_irreflexive(name_at(j));
    }
}

/// A search for the name of the entry at `i` that starts at or before `i`
/// ends at `i`.
proof fn lemma_search_ends_at(i: int, from: int)
    requires
        0 <= from <= i < WEB_COLOR_COUNT,
    ensures
        first_named(name_at(i), from) == Some(i),
    decreases i - from,
{
    if from < i {
        lemma_names_differ(from, i);
        lemma_search_ends_at(i, from + 1);
    }
}

/// A search for a name from `from` on finds the first entry with that name
/// at or after `from`, and finds nothing only where there is none.
proof fn lemma_search_for_name(name: Seq<char>, from: int)
    requires
        0 <= from <= WEB_COLOR_COUNT,
    ensures
        match first_named(name, from) {
            Some(i) => {
                &&& from <= i < WEB_COLOR_COUNT
                &&& name_at(i) == name
                &&& forall|j: int| from <= j < i ==> name_at(j) != name
            },
            None => forall|j: int| from <= j < WEB_COLOR_COUNT ==> name_at(j) != name,
        },
    decreases WEB_COLOR_COUNT - from,
{
    if from < WEB_COLOR_COUNT && name_at(from) != name {
        lemma_search_for_name(name, from + 1);
    }
}

/// A search for a color from `from` on finds the first entry of that color
/// at or after `from`, and finds nothing only where there is none.
proof fn lemma_search_for_color(color: Color, from: int)
    requires
        0 <= from <= WEB_COLOR_COUNT,
    ensures
        match first_colored(color, from) {
            Some(i) => {
                &&& from <= i < WEB_COLOR_COUNT
                &&& color_at(i) == color
                &&& forall|j: int| from <= j < i ==> color_at(j) != color
            },
            None => forall|j: int| from <= j < WEB_COLOR_COUNT ==> color_at(j) != color,
        },
    decreases WEB_COLOR_COUNT - from,
{
    if from < WEB_COLOR_COUNT && color_at(from) != color {
        lemma_search_for_color(color, from + 1);
    }
}

/// A name has a color exactly when the table holds the name, and the color
/// is the one that stands beside it.
pub proof fn law_color_named(name: Seq<char>)
    ensures
        match color_named(name) {
            Some(color) => exists|i: int|
                0 <= i < WEB_COLOR_COUNT && name_at(i) == name && color_at(i) == color,
            None => forall|i: int| 0 <= i < WEB_COLOR_COUNT ==> name_at(i) != name,
        },
{
    lemma_search_for_name(name, 0);
}

/// A color has a name exactly when the table holds the color, and the name
/// is that of the first entry with the color.
pub proof fn law_name_of(color: Color)
    ensures
        match name_of(color) {
            Some(name) => exists|i: int|
                {
                    &&& 0 <= i < WEB_COLOR_COUNT
                    &&& color_at(i) == color
                    &&& name_at(i) == name
                    &&& forall|j: int| 0 <= j < i ==> color_at(j) != color
                },
            None => forall|i: int| 0 <= i < WEB_COLOR_COUNT ==> color_at(i) != color,
        },
{
    lemma_search_for_color(color, 0);
}

/// Every name of the table leads to the color that stands beside it.
pub proof fn law_name_leads_to_its_color(i: int)
    requires
        0 <= i < WEB_COLOR_COUNT,
    ensures
        color_named(name_at(i)) == Some(color_at(i)),
{
    lemma_search_ends_at(i, 0);
}

/// The name that the table gives for a color leads back to that color.
pub proof fn law_name_of_color_leads_back(color: Color)
    ensures
        match name_of(color) {
            Some(name) => color_named(name) == Some(color),
            None => true,
        },
{
    lemma_search_for_color(color, 0);
    match first_colored(color, 0) {
        Some(i) => {
            lemma_search_ends_at(i, 0);
        },
        None => {},
    }
}

} // verus!
