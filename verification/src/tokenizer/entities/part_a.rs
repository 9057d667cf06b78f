use vstd::prelude::*;

verus! {

/// The names of the references 0 to 63, from `&AElig` to `&Colon;`.
#[verifier::opaque]
pub open spec fn names_0(index: int) -> Seq<char> {
    if index == 0 {
        "AElig"@
    } else if index == 1 {
        "AElig;"@
    } else if index == 2 {
        "AMP"@
    } else if index == 3 {
        "AMP;"@
    } else if index == 4 {
        "Aacute"@
    } else if index == 5 {
        "Aacute;"@
    } else if index == 6 {
        "Abreve;"@
    } else if index == 7 {
        "Acirc"@
    } else if index == 8 {
        "Acirc;"@
    } else if index == 9 {
        "Acy;"@
    } else if index == 10 {
        "Afr;"@
    } else if index == 11 {
        "Agrave"@
    } else if index == 12 {
        "Agrave;"@
    } else if index == 13 {
        "Alpha;"@
    } else if index == 14 {
        "Amacr;"@
    } else if index == 15 {
        "And;"@
    } else if index == 16 {
        "Aogon;"@
    } else if index == 17 {
        "Aopf;"@
    } else if index == 18 {
        "ApplyFunction;"@
    } else if index == 19 {
        "Aring"@
    } else if index == 20 {
        "Aring;"@
    } else if index == 21 {
        "Ascr;"@
    } else if index == 22 {
        "Assign;"@
    } else if index == 23 {
        "Atilde"@
    } else if index == 24 {
        "Atilde;"@
    } else if index == 25 {
        "Auml"@
    } else if index == 26 {
        "Auml;"@
    } else if index == 27 {
        "Backslash;"@
    } else if index == 28 {
        "Barv;"@
    } else if index == 29 {
        "Barwed;"@
    } else if index == 30 {
        "Bcy;"@
    } else if index == 31 {
        "Because;"@
    } else if index == 32 {
        "Bernoullis;"@
    } else if index == 33 {
        "Beta;"@
    } else if index == 34 {
        "Bfr;"@
    } else if index == 35 {
        "Bopf;"@
    } else if index == 36 {
        "Breve;"@
    } else if index == 37 {
        "Bscr;"@
    } else if index == 38 {
        "Bumpeq;"@
    } else if index == 39 {
        "CHcy;"@
    } else if index == 40 {
        "COPY"@
    } else if index == 41 {
        "COPY;"@
    } else if index == 42 {
        "Cacute;"@
    } else if index == 43 {
        "Cap;"@
    } else if index == 44 {
        "CapitalDifferentialD;"@
    } else if index == 45 {
        "Cayleys;"@
    } else if index == 46 {
        "Ccaron;"@
    } else if index == 47 {
        "Ccedil"@
    } else if index == 48 {
        "Ccedil;"@
    } else if index == 49 {
        "Ccirc;"@
    } else if index == 50 {
        "Cconint;"@
    } else if index == 51 {
        "Cdot;"@
    } else if index == 52 {
        "Cedilla;"@
    } else if index == 53 {
        "CenterDot;"@
    } else if index == 54 {
        "Cfr;"@
    } else if index == 55 {
        "Chi;"@
    } else if index == 56 {
        "CircleDot;"@
    } else if index == 57 {
        "CircleMinus;"@
    } else if index == 58 {
        "CirclePlus;"@
    } else if index == 59 {
        "CircleTimes;"@
    } else if index == 60 {
        "ClockwiseContourIntegral;"@
    } else if index == 61 {
        "CloseCurlyDoubleQuote;"@
    } else if index == 62 {
        "CloseCurlyQuote;"@
    } else if index == 63 {
        "Colon;"@
    } else {
        Seq::empty()
    }
}

/// The characters that the references 0 to 63 stand for.
#[verifier::opaque]
pub open spec fn texts_0(index: int) -> Seq<char> {
    if index == 0 {
        "\u{C6}"@
    } else if index == 1 {
        "\u{C6}"@
    } else if index == 2 {
        "\u{26}"@
    } else if index == 3 {
        "\u{26}"@
    } else if index == 4 {
        "\u{C1}"@
    } else if index == 5 {
        "\u{C1}"@
    } else if index == 6 {
        "\u{102}"@
    } else if index == 7 {
        "\u{C2}"@
    } else if index == 8 {
        "\u{C2}"@
    } else if index == 9 {
        "\u{410}"@
    } else if index == 10 {
        "\u{1D504}"@
    } else if index == 11 {
        "\u{C0}"@
    } else if index == 12 {
        "\u{C0}"@
    } else if index == 13 {
        "\u{391}"@
    } else if index == 14 {
        "\u{100}"@
    } else if index == 15 {
        "\u{2A53}"@
    } else if index == 16 {
        "\u{104}"@
    } else if index == 17 {
        "\u{1D538}"@
    } else if index == 18 {
        "\u{2061}"@
    } else if index == 19 {
        "\u{C5}"@
    } else if index == 20 {
        "\u{C5}"@
    } else if index == 21 {
        "\u{1D49C}"@
    } else if index == 22 {
        "\u{2254}"@
    } else if index == 23 {
        "\u{C3}"@
    } else if index == 24 {
        "\u{C3}"@
    } else if index == 25 {
        "\u{C4}"@
    } else if index == 26 {
        "\u{C4}"@
    } else if index == 27 {
        "\u{2216}"@
    } else if index == 28 {
        "\u{2AE7}"@
    } else if index == 29 {
        "\u{2306}"@
    } else if index == 30 {
        "\u{411}"@
    } else if index == 31 {
        "\u{2235}"@
    } else if index == 32 {
        "\u{212C}"@
    } else if index == 33 {
        "\u{392}"@
    } else if index == 34 {
        "\u{1D505}"@
    } else if index == 35 {
        "\u{1D539}"@
    } else if index == 36 {
        "\u{2D8}"@
    } else if index == 37 {
        "\u{212C}"@
    } else if index == 38 {
        "\u{224E}"@
    } else if index == 39 {
        "\u{427}"@
    } else if index == 40 {
        "\u{A9}"@
    } else if index == 41 {
        "\u{A9}"@
    } else if index == 42 {
        "\u{106}"@
    } else if index == 43 {
        "\u{22D2}"@
    } else if index == 44 {
        "\u{2145}"@
    } else if index == 45 {
        "\u{212D}"@
    } else if index == 46 {
        "\u{10C}"@
    } else if index == 47 {
        "\u{C7}"@
    } else if index == 48 {
        "\u{C7}"@
    } else if index == 49 {
        "\u{108}"@
    } else if index == 50 {
        "\u{2230}"@
    } else if index == 51 {
        "\u{10A}"@
    } else if index == 52 {
        "\u{B8}"@
    } else if index == 53 {
        "\u{B7}"@
    } else if index == 54 {
        "\u{212D}"@
    } else if index == 55 {
        "\u{3A7}"@
    } else if index == 56 {
        "\u{2299}"@
    } else if index == 57 {
        "\u{2296}"@
    } else if index == 58 {
        "\u{2295}"@
    } else if index == 59 {
        "\u{2297}"@
    } else if index == 60 {
        "\u{2232}"@
    } else if index == 61 {
        "\u{201D}"@
    } else if index == 62 {
        "\u{2019}"@
    } else if index == 63 {
        "\u{2237}"@
    } else {
        Seq::empty()
    }
}

/// The name of the reference `index` and the characters that it stands for.
pub fn entry_0(index: usize) -> (r: (&'static str, &'static str))
    ensures
        r.0@ == names_0(index as int),
        r.1@ == texts_0(index as int),
{
    proof {
        reveal(names_0);
        reveal(texts_0);
        reveal_strlit("");
    }
    match index {
        0 => ("AElig", "\u{C6}"),
        1 => ("AElig;", "\u{C6}"),
        2 => ("AMP", "\u{26}"),
        3 => ("AMP;", "\u{26}"),
        4 => ("Aacute", "\u{C1}"),
        5 => ("Aacute;", "\u{C1}"),
        6 => ("Abreve;", "\u{102}"),
        7 => ("Acirc", "\u{C2}"),
        8 => ("Acirc;", "\u{C2}"),
        9 => ("Acy;", "\u{410}"),
        10 => ("Afr;", "\u{1D504}"),
        11 => ("Agrave", "\u{C0}"),
        12 => ("Agrave;", "\u{C0}"),
        13 => ("Alpha;", "\u{391}"),
        14 => ("Amacr;", "\u{100}"),
        15 => ("And;", "\u{2A53}"),
        16 => ("Aogon;", "\u{104}"),
        17 => ("Aopf;", "\u{1D538}"),
        18 => ("ApplyFunction;", "\u{2061}"),
        19 => ("Aring", "\u{C5}"),
        20 => ("Aring;", "\u{C5}"),
        21 => ("Ascr;", "\u{1D49C}"),
        22 => ("Assign;", "\u{2254}"),
        23 => ("Atilde", "\u{C3}"),
        24 => ("Atilde;", "\u{C3}"),
        25 => ("Auml", "\u{C4}"),
        26 => ("Auml;", "\u{C4}"),
        27 => ("Backslash;", "\u{2216}"),
        28 => ("Barv;", "\u{2AE7}"),
        29 => ("Barwed;", "\u{2306}"),
        30 => ("Bcy;", "\u{411}"),
        31 => ("Because;", "\u{2235}"),
        32 => ("Bernoullis;", "\u{212C}"),
        33 => ("Beta;", "\u{392}"),
        34 => ("Bfr;", "\u{1D505}"),
        35 => ("Bopf;", "\u{1D539}"),
        36 => ("Breve;", "\u{2D8}"),
        37 => ("Bscr;", "\u{212C}"),
        38 => ("Bumpeq;", "\u{224E}"),
        39 => ("CHcy;", "\u{427}"),
        40 => ("COPY", "\u{A9}"),
        41 => ("COPY;", "\u{A9}"),
        42 => ("Cacute;", "\u{106}"),
        43 => ("Cap;", "\u{22D2}"),
        44 => ("CapitalDifferentialD;", "\u{2145}"),
        45 => ("Cayleys;", "\u{212D}"),
        46 => ("Ccaron;", "\u{10C}"),
        47 => ("Ccedil", "\u{C7}"),
        48 => ("Ccedil;", "\u{C7}"),
        49 => ("Ccirc;", "\u{108}"),
        50 => ("Cconint;", "\u{2230}"),
        51 => ("Cdot;", "\u{10A}"),
        52 => ("Cedilla;", "\u{B8}"),
        53 => ("CenterDot;", "\u{B7}"),
        54 => ("Cfr;", "\u{212D}"),
        55 => ("Chi;", "\u{3A7}"),
        56 => ("CircleDot;", "\u{2299}"),
        57 => ("CircleMinus;", "\u{2296}"),
        58 => ("CirclePlus;", "\u{2295}"),
        59 => ("CircleTimes;", "\u{2297}"),
        60 => ("ClockwiseContourIntegral;", "\u{2232}"),
        61 => ("CloseCurlyDoubleQuote;", "\u{201D}"),
        62 => ("CloseCurlyQuote;", "\u{2019}"),
        63 => ("Colon;", "\u{2237}"),
        _ => ("", ""),
    }
}

/// The names of the references 64 to 127, from `&Colone;` to `&Dscr;`.
#[verifier::opaque]
pub open spec fn names_64(index: int) -> Seq<char> {
    if index == 64 {
        "Colone;"@
    } else if index == 65 {
        "Congruent;"@
    } else if index == 66 {
        "Conint;"@
    } else if index == 67 {
        "ContourIntegral;"@
    } else if index == 68 {
        "Copf;"@
    } else if index == 69 {
        "Coproduct;"@
    } else if index == 70 {
        "CounterClockwiseContourIntegral;"@
    } else if index == 71 {
        "Cross;"@
    } else if index == 72 {
        "Cscr;"@
    } else if index == 73 {
        "Cup;"@
    } else if index == 74 {
        "CupCap;"@
    } else if index == 75 {
        "DD;"@
    } else if index == 76 {
        "DDotrahd;"@
    } else if index == 77 {
        "DJcy;"@
    } else if index == 78 {
        "DScy;"@
    } else if index == 79 {
        "DZcy;"@
    } else if index == 80 {
        "Dagger;"@
    } else if index == 81 {
        "Darr;"@
    } else if index == 82 {
        "Dashv;"@
    } else if index == 83 {
        "Dcaron;"@
    } else if index == 84 {
        "Dcy;"@
    } else if index == 85 {
        "Del;"@
    } else if index == 86 {
        "Delta;"@
    } else if index == 87 {
        "Dfr;"@
    } else if index == 88 {
        "DiacriticalAcute;"@
    } else if index == 89 {
        "DiacriticalDot;"@
    } else if index == 90 {
        "DiacriticalDoubleAcute;"@
    } else if index == 91 {
        "DiacriticalGrave;"@
    } else if index == 92 {
        "DiacriticalTilde;"@
    } else if index == 93 {
        "Diamond;"@
    } else if index == 94 {
        "DifferentialD;"@
    } else if index == 95 {
        "Dopf;"@
    } else if index == 96 {
        "Dot;"@
    } else if index == 97 {
        "DotDot;"@
    } else if index == 98 {
        "DotEqual;"@
    } else if index == 99 {
        "DoubleContourIntegral;"@
    } else if index == 100 {
        "DoubleDot;"@
    } else if index == 101 {
        "DoubleDownArrow;"@
    } else if index == 102 {
        "DoubleLeftArrow;"@
    } else if index == 103 {
        "DoubleLeftRightArrow;"@
    } else if index == 104 {
        "DoubleLeftTee;"@
    } else if index == 105 {
        "DoubleLongLeftArrow;"@
    } else if index == 106 {
        "DoubleLongLeftRightArrow;"@
    } else if index == 107 {
        "DoubleLongRightArrow;"@
    } else if index == 108 {
        "DoubleRightArrow;"@
    } else if index == 109 {
        "DoubleRightTee;"@
    } else if index == 110 {
        "DoubleUpArrow;"@
    } else if index == 111 {
        "DoubleUpDownArrow;"@
    } else if index == 112 {
        "DoubleVerticalBar;"@
    } else if index == 113 {
        "DownArrow;"@
    } else if index == 114 {
        "DownArrowBar;"@
    } else if index == 115 {
        "DownArrowUpArrow;"@
    } else if index == 116 {
        "DownBreve;"@
    } else if index == 117 {
        "DownLeftRightVector;"@
    } else if index == 118 {
        "DownLeftTeeVector;"@
    } else if index == 119 {
        "DownLeftVector;"@
    } else if index == 120 {
        "DownLeftVectorBar;"@
    } else if index == 121 {
        "DownRightTeeVector;"@
    } else if index == 122 {
        "DownRightVector;"@
    } else if index == 123 {
        "DownRightVectorBar;"@
    } else if index == 124 {
        "DownTee;"@
    } else if index == 125 {
        "DownTeeArrow;"@
    } else if index == 126 {
        "Downarrow;"@
    } else if index == 127 {
        "Dscr;"@
    } else {
        Seq::empty()
    }
}

/// The characters that the references 64 to 127 stand for.
#[verifier::opaque]
pub open spec fn texts_64(index: int) -> Seq<char> {
    if index == 64 {
        "\u{2A74}"@
    } else if index == 65 {
        "\u{2261}"@
    } else if index == 66 {
        "\u{222F}"@
    } else if index == 67 {
        "\u{222E}"@
    } else if index == 68 {
        "\u{2102}"@
    } else if index == 69 {
        "\u{2210}"@
    } else if index == 70 {
        "\u{2233}"@
    } else if index == 71 {
        "\u{2A2F}"@
    } else if index == 72 {
        "\u{1D49E}"@
    } else if index == 73 {
        "\u{22D3}"@
    } else if index == 74 {
        "\u{224D}"@
    } else if index == 75 {
        "\u{2145}"@
    } else if index == 76 {
        "\u{2911}"@
    } else if index == 77 {
        "\u{402}"@
    } else if index == 78 {
        "\u{405}"@
    } else if index == 79 {
        "\u{40F}"@
    } else if index == 80 {
        "\u{2021}"@
    } else if index == 81 {
        "\u{21A1}"@
    } else if index == 82 {
        "\u{2AE4}"@
    } else if index == 83 {
        "\u{10E}"@
    } else if index == 84 {
        "\u{414}"@
    } else if index == 85 {
        "\u{2207}"@
    } else if index == 86 {
        "\u{394}"@
    } else if index == 87 {
        "\u{1D507}"@
    } else if index == 88 {
        "\u{B4}"@
    } else if index == 89 {
        "\u{2D9}"@
    } else if index == 90 {
        "\u{2DD}"@
    } else if index == 91 {
        "\u{60}"@
    } else if index == 92 {
        "\u{2DC}"@
    } else if index == 93 {
        "\u{22C4}"@
    } else if index == 94 {
        "\u{2146}"@
    } else if index == 95 {
        "\u{1D53B}"@
    } else if index == 96 {
        "\u{A8}"@
    } else if index == 97 {
        "\u{20DC}"@
    } else if index == 98 {
        "\u{2250}"@
    } else if index == 99 {
        "\u{222F}"@
    } else if index == 100 {
        "\u{A8}"@
    } else if index == 101 {
        "\u{21D3}"@
    } else if index == 102 {
        "\u{21D0}"@
    } else if index == 103 {
        "\u{21D4}"@
    } else if index == 104 {
        "\u{2AE4}"@
    } else if index == 105 {
        "\u{27F8}"@
    } else if index == 106 {
        "\u{27FA}"@
    } else if index == 107 {
        "\u{27F9}"@
    } else if index == 108 {
        "\u{21D2}"@
    } else if index == 109 {
        "\u{22A8}"@
    } else if index == 110 {
        "\u{21D1}"@
    } else if index == 111 {
        "\u{21D5}"@
    } else if index == 112 {
        "\u{2225}"@
    } else if index == 113 {
        "\u{2193}"@
    } else if index == 114 {
        "\u{2913}"@
    } else if index == 115 {
        "\u{21F5}"@
    } else if index == 116 {
        "\u{311}"@
    } else if index == 117 {
        "\u{2950}"@
    } else if index == 118 {
        "\u{295E}"@
    } else if index == 119 {
        "\u{21BD}"@
    } else if index == 120 {
        "\u{2956}"@
    } else if index == 121 {
        "\u{295F}"@
    } else if index == 122 {
        "\u{21C1}"@
    } else if index == 123 {
        "\u{2957}"@
    } else if index == 124 {
        "\u{22A4}"@
    } else if index == 125 {
        "\u{21A7}"@
    } else if index == 126 {
        "\u{21D3}"@
    } else if index == 127 {
        "\u{1D49F}"@
    } else {
        Seq::empty()
    }
}

/// The name of the reference `index` and the characters that it stands for.
pub fn entry_64(index: usize) -> (r: (&'static str, &'static str))
    ensures
        r.0@ == names_64(index as int),
        r.1@ == texts_64(index as int),
{
    proof {
        reveal(names_64);
        reveal(texts_64);
        reveal_strlit("");
    }
    match index {
        64 => ("Colone;", "\u{2A74}"),
        65 => ("Congruent;", "\u{2261}"),
        66 => ("Conint;", "\u{222F}"),
        67 => ("ContourIntegral;", "\u{222E}"),
        68 => ("Copf;", "\u{2102}"),
        69 => ("Coproduct;", "\u{2210}"),
        70 => ("CounterClockwiseContourIntegral;", "\u{2233}"),
        71 => ("Cross;", "\u{2A2F}"),
        72 => ("Cscr;", "\u{1D49E}"),
        73 => ("Cup;", "\u{22D3}"),
        74 => ("CupCap;", "\u{224D}"),
        75 => ("DD;", "\u{2145}"),
        76 => ("DDotrahd;", "\u{2911}"),
        77 => ("DJcy;", "\u{402}"),
        78 => ("DScy;", "\u{405}"),
        79 => ("DZcy;", "\u{40F}"),
        80 => ("Dagger;", "\u{2021}"),
        81 => ("Darr;", "\u{21A1}"),
        82 => ("Dashv;", "\u{2AE4}"),
        83 => ("Dcaron;", "\u{10E}"),
        84 => ("Dcy;", "\u{414}"),
        85 => ("Del;", "\u{2207}"),
        86 => ("Delta;", "\u{394}"),
        87 => ("Dfr;", "\u{1D507}"),
        88 => ("DiacriticalAcute;", "\u{B4}"),
        89 => ("DiacriticalDot;", "\u{2D9}"),
        90 => ("DiacriticalDoubleAcute;", "\u{2DD}"),
        91 => ("DiacriticalGrave;", "\u{60}"),
        92 => ("DiacriticalTilde;", "\u{2DC}"),
        93 => ("Diamond;", "\u{22C4}"),
        94 => ("DifferentialD;", "\u{2146}"),
        95 => ("Dopf;", "\u{1D53B}"),
        96 => ("Dot;", "\u{A8}"),
        97 => ("DotDot;", "\u{20DC}"),
        98 => ("DotEqual;", "\u{2250}"),
        99 => ("DoubleContourIntegral;", "\u{222F}"),
        100 => ("DoubleDot;", "\u{A8}"),
        101 => ("DoubleDownArrow;", "\u{21D3}"),
        102 => ("DoubleLeftArrow;", "\u{21D0}"),
        103 => ("DoubleLeftRightArrow;", "\u{21D4}"),
        104 => ("DoubleLeftTee;", "\u{2AE4}"),
        105 => ("DoubleLongLeftArrow;", "\u{27F8}"),
        106 => ("DoubleLongLeftRightArrow;", "\u{27FA}"),
        107 => ("DoubleLongRightArrow;", "\u{27F9}"),
        108 => ("DoubleRightArrow;", "\u{21D2}"),
        109 => ("DoubleRightTee;", "\u{22A8}"),
        110 => ("DoubleUpArrow;", "\u{21D1}"),
        111 => ("DoubleUpDownArrow;", "\u{21D5}"),
        112 => ("DoubleVerticalBar;", "\u{2225}"),
        113 => ("DownArrow;", "\u{2193}"),
        114 => ("DownArrowBar;", "\u{2913}"),
        115 => ("DownArrowUpArrow;", "\u{21F5}"),
        116 => ("DownBreve;", "\u{311}"),
        117 => ("DownLeftRightVector;", "\u{2950}"),
        118 => ("DownLeftTeeVector;", "\u{295E}"),
        119 => ("DownLeftVector;", "\u{21BD}"),
        120 => ("DownLeftVectorBar;", "\u{2956}"),
        121 => ("DownRightTeeVector;", "\u{295F}"),
        122 => ("DownRightVector;", "\u{21C1}"),
        123 => ("DownRightVectorBar;", "\u{2957}"),
        124 => ("DownTee;", "\u{22A4}"),
        125 => ("DownTeeArrow;", "\u{21A7}"),
        126 => ("Downarrow;", "\u{21D3}"),
        127 => ("Dscr;", "\u{1D49F}"),
        _ => ("", ""),
    }
}

/// The names of the references 128 to 191, from `&Dstrok;` to `&Hat;`.
#[verifier::opaque]
pub open spec fn names_128(index: int) -> Seq<char> {
    if index == 128 {
        "Dstrok;"@
    } else if index == 129 {
        "ENG;"@
    } else if index == 130 {
        "ETH"@
    } else if index == 131 {
        "ETH;"@
    } else if index == 132 {
        "Eacute"@
    } else if index == 133 {
        "Eacute;"@
    } else if index == 134 {
        "Ecaron;"@
    } else if index == 135 {
        "Ecirc"@
    } else if index == 136 {
        "Ecirc;"@
    } else if index == 137 {
        "Ecy;"@
    } else if index == 138 {
        "Edot;"@
    } else if index == 139 {
        "Efr;"@
    } else if index == 140 {
        "Egrave"@
    } else if index == 141 {
        "Egrave;"@
    } else if index == 142 {
        "Element;"@
    } else if index == 143 {
        "Emacr;"@
    } else if index == 144 {
        "EmptySmallSquare;"@
    } else if index == 145 {
        "EmptyVerySmallSquare;"@
    } else if index == 146 {
        "Eogon;"@
    } else if index == 147 {
        "Eopf;"@
    } else if index == 148 {
        "Epsilon;"@
    } else if index == 149 {
        "Equal;"@
    } else if index == 150 {
        "EqualTilde;"@
    } else if index == 151 {
        "Equilibrium;"@
    } else if index == 152 {
        "Escr;"@
    } else if index == 153 {
        "Esim;"@
    } else if index == 154 {
        "Eta;"@
    } else if index == 155 {
        "Euml"@
    } else if index == 156 {
        "Euml;"@
    } else if index == 157 {
        "Exists;"@
    } else if index == 158 {
        "ExponentialE;"@
    } else if index == 159 {
        "Fcy;"@
    } else if index == 160 {
        "Ffr;"@
    } else if index == 161 {
        "FilledSmallSquare;"@
    } else if index == 162 {
        "FilledVerySmallSquare;"@
    } else if index == 163 {
        "Fopf;"@
    } else if index == 164 {
        "ForAll;"@
    } else if index == 165 {
        "Fouriertrf;"@
    } else if index == 166 {
        "Fscr;"@
    } else if index == 167 {
        "GJcy;"@
    } else if index == 168 {
        "GT"@
    } else if index == 169 {
        "GT;"@
    } else if index == 170 {
        "Gamma;"@
    } else if index == 171 {
        "Gammad;"@
    } else if index == 172 {
        "Gbreve;"@
    } else if index == 173 {
        "Gcedil;"@
    } else if index == 174 {
        "Gcirc;"@
    } else if index == 175 {
        "Gcy;"@
    } else if index == 176 {
        "Gdot;"@
    } else if index == 177 {
        "Gfr;"@
    } else if index == 178 {
        "Gg;"@
    } else if index == 179 {
        "Gopf;"@
    } else if index == 180 {
        "GreaterEqual;"@
    } else if index == 181 {
        "GreaterEqualLess;"@
    } else if index == 182 {
        "GreaterFullEqual;"@
    } else if index == 183 {
        "GreaterGreater;"@
    } else if index == 184 {
        "GreaterLess;"@
    } else if index == 185 {
        "GreaterSlantEqual;"@
    } else if index == 186 {
        "GreaterTilde;"@
    } else if index == 187 {
        "Gscr;"@
    } else if index == 188 {
        "Gt;"@
    } else if index == 189 {
        "HARDcy;"@
    } else if index == 190 {
        "Hacek;"@
    } else if index == 191 {
        "Hat;"@
    } else {
        Seq::empty()
    }
}

/// The characters that the references 128 to 191 stand for.
#[verifier::opaque]
pub open spec fn texts_128(index: int) -> Seq<char> {
    if index == 128 {
        "\u{110}"@
    } else if index == 129 {
        "\u{14A}"@
    } else if index == 130 {
        "\u{D0}"@
    } else if index == 131 {
        "\u{D0}"@
    } else if index == 132 {
        "\u{C9}"@
    } else if index == 133 {
        "\u{C9}"@
    } else if index == 134 {
        "\u{11A}"@
    } else if index == 135 {
        "\u{CA}"@
    } else if index == 136 {
        "\u{CA}"@
    } else if index == 137 {
        "\u{42D}"@
    } else if index == 138 {
        "\u{116}"@
    } else if index == 139 {
        "\u{1D508}"@
    } else if index == 140 {
        "\u{C8}"@
    } else if index == 141 {
        "\u{C8}"@
    } else if index == 142 {
        "\u{2208}"@
    } else if index == 143 {
        "\u{112}"@
    } else if index == 144 {
        "\u{25FB}"@
    } else if index == 145 {
        "\u{25AB}"@
    } else if index == 146 {
        "\u{118}"@
    } else if index == 147 {
        "\u{1D53C}"@
    } else if index == 148 {
        "\u{395}"@
    } else if index == 149 {
        "\u{2A75}"@
    } else if index == 150 {
        "\u{2242}"@
    } else if index == 151 {
        "\u{21CC}"@
    } else if index == 152 {
        "\u{2130}"@
    } else if index == 153 {
        "\u{2A73}"@
    } else if index == 154 {
        "\u{397}"@
    } else if index == 155 {
        "\u{CB}"@
    } else if index == 156 {
        "\u{CB}"@
    } else if index == 157 {
        "\u{2203}"@
    } else if index == 158 {
        "\u{2147}"@
    } else if index == 159 {
        "\u{424}"@
    } else if index == 160 {
        "\u{1D509}"@
    } else if index == 161 {
        "\u{25FC}"@
    } else if index == 162 {
        "\u{25AA}"@
    } else if index == 163 {
        "\u{1D53D}"@
    } else if index == 164 {
        "\u{2200}"@
    } else if index == 165 {
        "\u{2131}"@
    } else if index == 166 {
        "\u{2131}"@
    } else if index == 167 {
        "\u{403}"@
    } else if index == 168 {
        "\u{3E}"@
    } else if index == 169 {
        "\u{3E}"@
    } else if index == 170 {
        "\u{393}"@
    } else if index == 171 {
        "\u{3DC}"@
    } else if index == 172 {
        "\u{11E}"@
    } else if index == 173 {
        "\u{122}"@
    } else if index == 174 {
        "\u{11C}"@
    } else if index == 175 {
        "\u{413}"@
    } else if index == 176 {
        "\u{120}"@
    } else if index == 177 {
        "\u{1D50A}"@
    } else if index == 178 {
        "\u{22D9}"@
    } else if index == 179 {
        "\u{1D53E}"@
    } else if index == 180 {
        "\u{2265}"@
    } else if index == 181 {
        "\u{22DB}"@
    } else if index == 182 {
        "\u{2267}"@
    } else if index == 183 {
        "\u{2AA2}"@
    } else if index == 184 {
        "\u{2277}"@
    } else if index == 185 {
        "\u{2A7E}"@
    } else if index == 186 {
        "\u{2273}"@
    } else if index == 187 {
        "\u{1D4A2}"@
    } else if index == 188 {
        "\u{226B}"@
    } else if index == 189 {
        "\u{42A}"@
    } else if index == 190 {
        "\u{2C7}"@
    } else if index == 191 {
        "\u{5E}"@
    } else {
        Seq::empty()
    }
}

/// The name of the reference `index` and the characters that it stands for.
pub fn entry_128(index: usize) -> (r: (&'static str, &'static str))
    ensures
        r.0@ == names_128(index as int),
        r.1@ == texts_128(index as int),
{
    proof {
        reveal(names_128);
        reveal(texts_128);
        reveal_strlit("");
    }
    match index {
        128 => ("Dstrok;", "\u{110}"),
        129 => ("ENG;", "\u{14A}"),
        130 => ("ETH", "\u{D0}"),
        131 => ("ETH;", "\u{D0}"),
        132 => ("Eacute", "\u{C9}"),
        133 => ("Eacute;", "\u{C9}"),
        134 => ("Ecaron;", "\u{11A}"),
        135 => ("Ecirc", "\u{CA}"),
        136 => ("Ecirc;", "\u{CA}"),
        137 => ("Ecy;", "\u{42D}"),
        138 => ("Edot;", "\u{116}"),
        139 => ("Efr;", "\u{1D508}"),
        140 => ("Egrave", "\u{C8}"),
        141 => ("Egrave;", "\u{C8}"),
        142 => ("Element;", "\u{2208}"),
        143 => ("Emacr;", "\u{112}"),
        144 => ("EmptySmallSquare;", "\u{25FB}"),
        145 => ("EmptyVerySmallSquare;", "\u{25AB}"),
        146 => ("Eogon;", "\u{118}"),
        147 => ("Eopf;", "\u{1D53C}"),
        148 => ("Epsilon;", "\u{395}"),
        149 => ("Equal;", "\u{2A75}"),
        150 => ("EqualTilde;", "\u{2242}"),
        151 => ("Equilibrium;", "\u{21CC}"),
        152 => ("Escr;", "\u{2130}"),
        153 => ("Esim;", "\u{2A73}"),
        154 => ("Eta;", "\u{397}"),
        155 => ("Euml", "\u{CB}"),
        156 => ("Euml;", "\u{CB}"),
        157 => ("Exists;", "\u{2203}"),
        158 => ("ExponentialE;", "\u{2147}"),
        159 => ("Fcy;", "\u{424}"),
        160 => ("Ffr;", "\u{1D509}"),
        161 => ("FilledSmallSquare;", "\u{25FC}"),
        162 => ("FilledVerySmallSquare;", "\u{25AA}"),
        163 => ("Fopf;", "\u{1D53D}"),
        164 => ("ForAll;", "\u{2200}"),
        165 => ("Fouriertrf;", "\u{2131}"),
        166 => ("Fscr;", "\u{2131}"),
        167 => ("GJcy;", "\u{403}"),
        168 => ("GT", "\u{3E}"),
        169 => ("GT;", "\u{3E}"),
        170 => ("Gamma;", "\u{393}"),
        171 => ("Gammad;", "\u{3DC}"),
        172 => ("Gbreve;", "\u{11E}"),
        173 => ("Gcedil;", "\u{122}"),
        174 => ("Gcirc;", "\u{11C}"),
        175 => ("Gcy;", "\u{413}"),
        176 => ("Gdot;", "\u{120}"),
        177 => ("Gfr;", "\u{1D50A}"),
        178 => ("Gg;", "\u{22D9}"),
        179 => ("Gopf;", "\u{1D53E}"),
        180 => ("GreaterEqual;", "\u{2265}"),
        181 => ("GreaterEqualLess;", "\u{22DB}"),
        182 => ("GreaterFullEqual;", "\u{2267}"),
        183 => ("GreaterGreater;", "\u{2AA2}"),
        184 => ("GreaterLess;", "\u{2277}"),
        185 => ("GreaterSlantEqual;", "\u{2A7E}"),
        186 => ("GreaterTilde;", "\u{2273}"),
        187 => ("Gscr;", "\u{1D4A2}"),
        188 => ("Gt;", "\u{226B}"),
        189 => ("HARDcy;", "\u{42A}"),
        190 => ("Hacek;", "\u{2C7}"),
        191 => ("Hat;", "\u{5E}"),
        _ => ("", ""),
    }
}

/// The names of the references 192 to 255, from `&Hcirc;` to `&Lcy;`.
#[verifier::opaque]
pub open spec fn names_192(index: int) -> Seq<char> {
    if index == 192 {
        "Hcirc;"@
    } else if index == 193 {
        "Hfr;"@
    } else if index == 194 {
        "HilbertSpace;"@
    } else if index == 195 {
        "Hopf;"@
    } else if index == 196 {
        "HorizontalLine;"@
    } else if index == 197 {
        "Hscr;"@
    } else if index == 198 {
        "Hstrok;"@
    } else if index == 199 {
        "HumpDownHump;"@
    } else if index == 200 {
        "HumpEqual;"@
    } else if index == 201 {
        "IEcy;"@
    } else if index == 202 {
        "IJlig;"@
    } else if index == 203 {
        "IOcy;"@
    } else if index == 204 {
        "Iacute"@
    } else if index == 205 {
        "Iacute;"@
    } else if index == 206 {
        "Icirc"@
    } else if index == 207 {
        "Icirc;"@
    } else if index == 208 {
        "Icy;"@
    } else if index == 209 {
        "Idot;"@
    } else if index == 210 {
        "Ifr;"@
    } else if index == 211 {
        "Igrave"@
    } else if index == 212 {
        "Igrave;"@
    } else if index == 213 {
        "Im;"@
    } else if index == 214 {
        "Imacr;"@
    } else if index == 215 {
        "ImaginaryI;"@
    } else if index == 216 {
        "Implies;"@
    } else if index == 217 {
        "Int;"@
    } else if index == 218 {
        "Integral;"@
    } else if index == 219 {
        "Intersection;"@
    } else if index == 220 {
        "InvisibleComma;"@
    } else if index == 221 {
        "InvisibleTimes;"@
    } else if index == 222 {
        "Iogon;"@
    } else if index == 223 {
        "Iopf;"@
    } else if index == 224 {
        "Iota;"@
    } else if index == 225 {
        "Iscr;"@
    } else if index == 226 {
        "Itilde;"@
    } else if index == 227 {
        "Iukcy;"@
    } else if index == 228 {
        "Iuml"@
    } else if index == 229 {
        "Iuml;"@
    } else if index == 230 {
        "Jcirc;"@
    } else if index == 231 {
        "Jcy;"@
    } else if index == 232 {
        "Jfr;"@
    } else if index == 233 {
        "Jopf;"@
    } else if index == 234 {
        "Jscr;"@
    } else if index == 235 {
        "Jsercy;"@
    } else if index == 236 {
        "Jukcy;"@
    } else if index == 237 {
        "KHcy;"@
    } else if index == 238 {
        "KJcy;"@
    } else if index == 239 {
        "Kappa;"@
    } else if index == 240 {
        "Kcedil;"@
    } else if index == 241 {
        "Kcy;"@
    } else if index == 242 {
        "Kfr;"@
    } else if index == 243 {
        "Kopf;"@
    } else if index == 244 {
        "Kscr;"@
    } else if index == 245 {
        "LJcy;"@
    } else if index == 246 {
        "LT"@
    } else if index == 247 {
        "LT;"@
    } else if index == 248 {
        "Lacute;"@
    } else if index == 249 {
        "Lambda;"@
    } else if index == 250 {
        "Lang;"@
    } else if index == 251 {
        "Laplacetrf;"@
    } else if index == 252 {
        "Larr;"@
    } else if index == 253 {
        "Lcaron;"@
    } else if index == 254 {
        "Lcedil;"@
    } else if index == 255 {
        "Lcy;"@
    } else {
        Seq::empty()
    }
}

/// The characters that the references 192 to 255 stand for.
#[verifier::opaque]
pub open spec fn texts_192(index: int) -> Seq<char> {
    if index == 192 {
        "\u{124}"@
    } else if index == 193 {
        "\u{210C}"@
    } else if index == 194 {
        "\u{210B}"@
    } else if index == 195 {
        "\u{210D}"@
    } else if index == 196 {
        "\u{2500}"@
    } else if index == 197 {
        "\u{210B}"@
    } else if index == 198 {
        "\u{126}"@
    } else if index == 199 {
        "\u{224E}"@
    } else if index == 200 {
        "\u{224F}"@
    } else if index == 201 {
        "\u{415}"@
    } else if index == 202 {
        "\u{132}"@
    } else if index == 203 {
        "\u{401}"@
    } else if index == 204 {
        "\u{CD}"@
    } else if index == 205 {
        "\u{CD}"@
    } else if index == 206 {
        "\u{CE}"@
    } else if index == 207 {
        "\u{CE}"@
    } else if index == 208 {
        "\u{418}"@
    } else if index == 209 {
        "\u{130}"@
    } else if index == 210 {
        "\u{2111}"@
    } else if index == 211 {
        "\u{CC}"@
    } else if index == 212 {
        "\u{CC}"@
    } else if index == 213 {
        "\u{2111}"@
    } else if index == 214 {
        "\u{12A}"@
    } else if index == 215 {
        "\u{2148}"@
    } else if index == 216 {
        "\u{21D2}"@
    } else if index == 217 {
        "\u{222C}"@
    } else if index == 218 {
        "\u{222B}"@
    } else if index == 219 {
        "\u{22C2}"@
    } else if index == 220 {
        "\u{2063}"@
    } else if index == 221 {
        "\u{2062}"@
    } else if index == 222 {
        "\u{12E}"@
    } else if index == 223 {
        "\u{1D540}"@
    } else if index == 224 {
        "\u{399}"@
    } else if index == 225 {
        "\u{2110}"@
    } else if index == 226 {
        "\u{128}"@
    } else if index == 227 {
        "\u{406}"@
    } else if index == 228 {
        "\u{CF}"@
    } else if index == 229 {
        "\u{CF}"@
    } else if index == 230 {
        "\u{134}"@
    } else if index == 231 {
        "\u{419}"@
    } else if index == 232 {
        "\u{1D50D}"@
    } else if index == 233 {
        "\u{1D541}"@
    } else if index == 234 {
        "\u{1D4A5}"@
    } else if index == 235 {
        "\u{408}"@
    } else if index == 236 {
        "\u{404}"@
    } else if index == 237 {
        "\u{425}"@
    } else if index == 238 {
        "\u{40C}"@
    } else if index == 239 {
        "\u{39A}"@
    } else if index == 240 {
        "\u{136}"@
    } else if index == 241 {
        "\u{41A}"@
    } else if index == 242 {
        "\u{1D50E}"@
    } else if index == 243 {
        "\u{1D542}"@
    } else if index == 244 {
        "\u{1D4A6}"@
    } else if index == 245 {
        "\u{409}"@
    } else if index == 246 {
        "\u{3C}"@
    } else if index == 247 {
        "\u{3C}"@
    } else if index == 248 {
        "\u{139}"@
    } else if index == 249 {
        "\u{39B}"@
    } else if index == 250 {
        "\u{27EA}"@
    } else if index == 251 {
        "\u{2112}"@
    } else if index == 252 {
        "\u{219E}"@
    } else if index == 253 {
        "\u{13D}"@
    } else if index == 254 {
        "\u{13B}"@
    } else if index == 255 {
        "\u{41B}"@
    } else {
        Seq::empty()
    }
}

/// The name of the reference `index` and the characters that it stands for.
pub fn entry_192(index: usize) -> (r: (&'static str, &'static str))
    ensures
        r.0@ == names_192(index as int),
        r.1@ == texts_192(index as int),
{
    proof {
        reveal(names_192);
        reveal(texts_192);
        reveal_strlit("");
    }
    match index {
        192 => ("Hcirc;", "\u{124}"),
        193 => ("Hfr;", "\u{210C}"),
        194 => ("HilbertSpace;", "\u{210B}"),
        195 => ("Hopf;", "\u{210D}"),
        196 => ("HorizontalLine;", "\u{2500}"),
        197 => ("Hscr;", "\u{210B}"),
        198 => ("Hstrok;", "\u{126}"),
        199 => ("HumpDownHump;", "\u{224E}"),
        200 => ("HumpEqual;", "\u{224F}"),
        201 => ("IEcy;", "\u{415}"),
        202 => ("IJlig;", "\u{132}"),
        203 => ("IOcy;", "\u{401}"),
        204 => ("Iacute", "\u{CD}"),
        205 => ("Iacute;", "\u{CD}"),
        206 => ("Icirc", "\u{CE}"),
        207 => ("Icirc;", "\u{CE}"),
        208 => ("Icy;", "\u{418}"),
        209 => ("Idot;", "\u{130}"),
        210 => ("Ifr;", "\u{2111}"),
        211 => ("Igrave", "\u{CC}"),
        212 => ("Igrave;", "\u{CC}"),
        213 => ("Im;", "\u{2111}"),
        214 => ("Imacr;", "\u{12A}"),
        215 => ("ImaginaryI;", "\u{2148}"),
        216 => ("Implies;", "\u{21D2}"),
        217 => ("Int;", "\u{222C}"),
        218 => ("Integral;", "\u{222B}"),
        219 => ("Intersection;", "\u{22C2}"),
        220 => ("InvisibleComma;", "\u{2063}"),
        221 => ("InvisibleTimes;", "\u{2062}"),
        222 => ("Iogon;", "\u{12E}"),
        223 => ("Iopf;", "\u{1D540}"),
        224 => ("Iota;", "\u{399}"),
        225 => ("Iscr;", "\u{2110}"),
        226 => ("Itilde;", "\u{128}"),
        227 => ("Iukcy;", "\u{406}"),
        228 => ("Iuml", "\u{CF}"),
        229 => ("Iuml;", "\u{CF}"),
        230 => ("Jcirc;", "\u{134}"),
        231 => ("Jcy;", "\u{419}"),
        232 => ("Jfr;", "\u{1D50D}"),
        233 => ("Jopf;", "\u{1D541}"),
        234 => ("Jscr;", "\u{1D4A5}"),
        235 => ("Jsercy;", "\u{408}"),
        236 => ("Jukcy;", "\u{404}"),
        237 => ("KHcy;", "\u{425}"),
        238 => ("KJcy;", "\u{40C}"),
        239 => ("Kappa;", "\u{39A}"),
        240 => ("Kcedil;", "\u{136}"),
        241 => ("Kcy;", "\u{41A}"),
        242 => ("Kfr;", "\u{1D50E}"),
        243 => ("Kopf;", "\u{1D542}"),
        244 => ("Kscr;", "\u{1D4A6}"),
        245 => ("LJcy;", "\u{409}"),
        246 => ("LT", "\u{3C}"),
        247 => ("LT;", "\u{3C}"),
        248 => ("Lacute;", "\u{139}"),
        249 => ("Lambda;", "\u{39B}"),
        250 => ("Lang;", "\u{27EA}"),
        251 => ("Laplacetrf;", "\u{2112}"),
        252 => ("Larr;", "\u{219E}"),
        253 => ("Lcaron;", "\u{13D}"),
        254 => ("Lcedil;", "\u{13B}"),
        255 => ("Lcy;", "\u{41B}"),
        _ => ("", ""),
    }
}

} // verus!
