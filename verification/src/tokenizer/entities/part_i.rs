use vstd::prelude::*;

verus! {

/// The names of the references 2048 to 2111, from `&topcir;` to `&upsilon;`.
#[verifier::opaque]
pub open spec fn names_2048(index: int) -> Seq<char> {
    if index == 2048 {
        "topcir;"@
    } else if index == 2049 {
        "topf;"@
    } else if index == 2050 {
        "topfork;"@
    } else if index == 2051 {
        "tosa;"@
    } else if index == 2052 {
        "tprime;"@
    } else if index == 2053 {
        "trade;"@
    } else if index == 2054 {
        "triangle;"@
    } else if index == 2055 {
        "triangledown;"@
    } else if index == 2056 {
        "triangleleft;"@
    } else if index == 2057 {
        "trianglelefteq;"@
    } else if index == 2058 {
        "triangleq;"@
    } else if index == 2059 {
        "triangleright;"@
    } else if index == 2060 {
        "trianglerighteq;"@
    } else if index == 2061 {
        "tridot;"@
    } else if index == 2062 {
        "trie;"@
    } else if index == 2063 {
        "triminus;"@
    } else if index == 2064 {
        "triplus;"@
    } else if index == 2065 {
        "trisb;"@
    } else if index == 2066 {
        "tritime;"@
    } else if index == 2067 {
        "trpezium;"@
    } else if index == 2068 {
        "tscr;"@
    } else if index == 2069 {
        "tscy;"@
    } else if index == 2070 {
        "tshcy;"@
    } else if index == 2071 {
        "tstrok;"@
    } else if index == 2072 {
        "twixt;"@
    } else if index == 2073 {
        "twoheadleftarrow;"@
    } else if index == 2074 {
        "twoheadrightarrow;"@
    } else if index == 2075 {
        "uArr;"@
    } else if index == 2076 {
        "uHar;"@
    } else if index == 2077 {
        "uacute"@
    } else if index == 2078 {
        "uacute;"@
    } else if index == 2079 {
        "uarr;"@
    } else if index == 2080 {
        "ubrcy;"@
    } else if index == 2081 {
        "ubreve;"@
    } else if index == 2082 {
        "ucirc"@
    } else if index == 2083 {
        "ucirc;"@
    } else if index == 2084 {
        "ucy;"@
    } else if index == 2085 {
        "udarr;"@
    } else if index == 2086 {
        "udblac;"@
    } else if index == 2087 {
        "udhar;"@
    } else if index == 2088 {
        "ufisht;"@
    } else if index == 2089 {
        "ufr;"@
    } else if index == 2090 {
        "ugrave"@
    } else if index == 2091 {
        "ugrave;"@
    } else if index == 2092 {
        "uharl;"@
    } else if index == 2093 {
        "uharr;"@
    } else if index == 2094 {
        "uhblk;"@
    } else if index == 2095 {
        "ulcorn;"@
    } else if index == 2096 {
        "ulcorner;"@
    } else if index == 2097 {
        "ulcrop;"@
    } else if index == 2098 {
        "ultri;"@
    } else if index == 2099 {
        "umacr;"@
    } else if index == 2100 {
        "uml"@
    } else if index == 2101 {
        "uml;"@
    } else if index == 2102 {
        "uogon;"@
    } else if index == 2103 {
        "uopf;"@
    } else if index == 2104 {
        "uparrow;"@
    } else if index == 2105 {
        "updownarrow;"@
    } else if index == 2106 {
        "upharpoonleft;"@
    } else if index == 2107 {
        "upharpoonright;"@
    } else if index == 2108 {
        "uplus;"@
    } else if index == 2109 {
        "upsi;"@
    } else if index == 2110 {
        "upsih;"@
    } else if index == 2111 {
        "upsilon;"@
    } else {
        Seq::empty()
    }
}

/// The characters that the references 2048 to 2111 stand for.
#[verifier::opaque]
pub open spec fn texts_2048(index: int) -> Seq<char> {
    if index == 2048 {
        "\u{2AF1}"@
    } else if index == 2049 {
        "\u{1D565}"@
    } else if index == 2050 {
        "\u{2ADA}"@
    } else if index == 2051 {
        "\u{2929}"@
    } else if index == 2052 {
        "\u{2034}"@
    } else if index == 2053 {
        "\u{2122}"@
    } else if index == 2054 {
        "\u{25B5}"@
    } else if index == 2055 {
        "\u{25BF}"@
    } else if index == 2056 {
        "\u{25C3}"@
    } else if index == 2057 {
        "\u{22B4}"@
    } else if index == 2058 {
        "\u{225C}"@
    } else if index == 2059 {
        "\u{25B9}"@
    } else if index == 2060 {
        "\u{22B5}"@
    } else if index == 2061 {
        "\u{25EC}"@
    } else if index == 2062 {
        "\u{225C}"@
    } else if index == 2063 {
        "\u{2A3A}"@
    } else if index == 2064 {
        "\u{2A39}"@
    } else if index == 2065 {
        "\u{29CD}"@
    } else if index == 2066 {
        "\u{2A3B}"@
    } else if index == 2067 {
        "\u{23E2}"@
    } else if index == 2068 {
        "\u{1D4C9}"@
    } else if index == 2069 {
        "\u{446}"@
    } else if index == 2070 {
        "\u{45B}"@
    } else if index == 2071 {
        "\u{167}"@
    } else if index == 2072 {
        "\u{226C}"@
    } else if index == 2073 {
        "\u{219E}"@
    } else if index == 2074 {
        "\u{21A0}"@
    } else if index == 2075 {
        "\u{21D1}"@
    } else if index == 2076 {
        "\u{2963}"@
    } else if index == 2077 {
        "\u{FA}"@
    } else if index == 2078 {
        "\u{FA}"@
    } else if index == 2079 {
        "\u{2191}"@
    } else if index == 2080 {
        "\u{45E}"@
    } else if index == 2081 {
        "\u{16D}"@
    } else if index == 2082 {
        "\u{FB}"@
    } else if index == 2083 {
        "\u{FB}"@
    } else if index == 2084 {
        "\u{443}"@
    } else if index == 2085 {
        "\u{21C5}"@
    } else if index == 2086 {
        "\u{171}"@
    } else if index == 2087 {
        "\u{296E}"@
    } else if index == 2088 {
        "\u{297E}"@
    } else if index == 2089 {
        "\u{1D532}"@
    } else if index == 2090 {
        "\u{F9}"@
    } else if index == 2091 {
        "\u{F9}"@
    } else if index == 2092 {
        "\u{21BF}"@
    } else if index == 2093 {
        "\u{21BE}"@
    } else if index == 2094 {
        "\u{2580}"@
    } else if index == 2095 {
        "\u{231C}"@
    } else if index == 2096 {
        "\u{231C}"@
    } else if index == 2097 {
        "\u{230F}"@
    } else if index == 2098 {
        "\u{25F8}"@
    } else if index == 2099 {
        "\u{16B}"@
    } else if index == 2100 {
        "\u{A8}"@
    } else if index == 2101 {
        "\u{A8}"@
    } else if index == 2102 {
        "\u{173}"@
    } else if index == 2103 {
        "\u{1D566}"@
    } else if index == 2104 {
        "\u{2191}"@
    } else if index == 2105 {
        "\u{2195}"@
    } else if index == 2106 {
        "\u{21BF}"@
    } else if index == 2107 {
        "\u{21BE}"@
    } else if index == 2108 {
        "\u{228E}"@
    } else if index == 2109 {
        "\u{3C5}"@
    } else if index == 2110 {
        "\u{3D2}"@
    } else if index == 2111 {
        "\u{3C5}"@
    } else {
        Seq::empty()
    }
}

/// The name of the reference `index` and the characters that it stands for.
pub fn entry_2048(index: usize) -> (r: (&'static str, &'static str))
    ensures
        r.0@ == names_2048(index as int),
        r.1@ == texts_2048(index as int),
{
    proof {
        reveal(names_2048);
        reveal(texts_2048);
        reveal_strlit("");
    }
    match index {
        2048 => ("topcir;", "\u{2AF1}"),
        2049 => ("topf;", "\u{1D565}"),
        2050 => ("topfork;", "\u{2ADA}"),
        2051 => ("tosa;", "\u{2929}"),
        2052 => ("tprime;", "\u{2034}"),
        2053 => ("trade;", "\u{2122}"),
        2054 => ("triangle;", "\u{25B5}"),
        2055 => ("triangledown;", "\u{25BF}"),
        2056 => ("triangleleft;", "\u{25C3}"),
        2057 => ("trianglelefteq;", "\u{22B4}"),
        2058 => ("triangleq;", "\u{225C}"),
        2059 => ("triangleright;", "\u{25B9}"),
        2060 => ("trianglerighteq;", "\u{22B5}"),
        2061 => ("tridot;", "\u{25EC}"),
        2062 => ("trie;", "\u{225C}"),
        2063 => ("triminus;", "\u{2A3A}"),
        2064 => ("triplus;", "\u{2A39}"),
        2065 => ("trisb;", "\u{29CD}"),
        2066 => ("tritime;", "\u{2A3B}"),
        2067 => ("trpezium;", "\u{23E2}"),
        2068 => ("tscr;", "\u{1D4C9}"),
        2069 => ("tscy;", "\u{446}"),
        2070 => ("tshcy;", "\u{45B}"),
        2071 => ("tstrok;", "\u{167}"),
        2072 => ("twixt;", "\u{226C}"),
        2073 => ("twoheadleftarrow;", "\u{219E}"),
        2074 => ("twoheadrightarrow;", "\u{21A0}"),
        2075 => ("uArr;", "\u{21D1}"),
        2076 => ("uHar;", "\u{2963}"),
        2077 => ("uacute", "\u{FA}"),
        2078 => ("uacute;", "\u{FA}"),
        2079 => ("uarr;", "\u{2191}"),
        2080 => ("ubrcy;", "\u{45E}"),
        2081 => ("ubreve;", "\u{16D}"),
        2082 => ("ucirc", "\u{FB}"),
        2083 => ("ucirc;", "\u{FB}"),
        2084 => ("ucy;", "\u{443}"),
        2085 => ("udarr;", "\u{21C5}"),
        2086 => ("udblac;", "\u{171}"),
        2087 => ("udhar;", "\u{296E}"),
        2088 => ("ufisht;", "\u{297E}"),
        2089 => ("ufr;", "\u{1D532}"),
        2090 => ("ugrave", "\u{F9}"),
        2091 => ("ugrave;", "\u{F9}"),
        2092 => ("uharl;", "\u{21BF}"),
        2093 => ("uharr;", "\u{21BE}"),
        2094 => ("uhblk;", "\u{2580}"),
        2095 => ("ulcorn;", "\u{231C}"),
        2096 => ("ulcorner;", "\u{231C}"),
        2097 => ("ulcrop;", "\u{230F}"),
        2098 => ("ultri;", "\u{25F8}"),
        2099 => ("umacr;", "\u{16B}"),
        2100 => ("uml", "\u{A8}"),
        2101 => ("uml;", "\u{A8}"),
        2102 => ("uogon;", "\u{173}"),
        2103 => ("uopf;", "\u{1D566}"),
        2104 => ("uparrow;", "\u{2191}"),
        2105 => ("updownarrow;", "\u{2195}"),
        2106 => ("upharpoonleft;", "\u{21BF}"),
        2107 => ("upharpoonright;", "\u{21BE}"),
        2108 => ("uplus;", "\u{228E}"),
        2109 => ("upsi;", "\u{3C5}"),
        2110 => ("upsih;", "\u{3D2}"),
        2111 => ("upsilon;", "\u{3C5}"),
        _ => ("", ""),
    }
}

/// The names of the references 2112 to 2175, from `&upuparrows;` to `&wopf;`.
#[verifier::opaque]
pub open spec fn names_2112(index: int) -> Seq<char> {
    if index == 2112 {
        "upuparrows;"@
    } else if index == 2113 {
        "urcorn;"@
    } else if index == 2114 {
        "urcorner;"@
    } else if index == 2115 {
        "urcrop;"@
    } else if index == 2116 {
        "uring;"@
    } else if index == 2117 {
        "urtri;"@
    } else if index == 2118 {
        "uscr;"@
    } else if index == 2119 {
        "utdot;"@
    } else if index == 2120 {
        "utilde;"@
    } else if index == 2121 {
        "utri;"@
    } else if index == 2122 {
        "utrif;"@
    } else if index == 2123 {
        "uuarr;"@
    } else if index == 2124 {
        "uuml"@
    } else if index == 2125 {
        "uuml;"@
    } else if index == 2126 {
        "uwangle;"@
    } else if index == 2127 {
        "vArr;"@
    } else if index == 2128 {
        "vBar;"@
    } else if index == 2129 {
        "vBarv;"@
    } else if index == 2130 {
        "vDash;"@
    } else if index == 2131 {
        "vangrt;"@
    } else if index == 2132 {
        "varepsilon;"@
    } else if index == 2133 {
        "varkappa;"@
    } else if index == 2134 {
        "varnothing;"@
    } else if index == 2135 {
        "varphi;"@
    } else if index == 2136 {
        "varpi;"@
    } else if index == 2137 {
        "varpropto;"@
    } else if index == 2138 {
        "varr;"@
    } else if index == 2139 {
        "varrho;"@
    } else if index == 2140 {
        "varsigma;"@
    } else if index == 2141 {
        "varsubsetneq;"@
    } else if index == 2142 {
        "varsubsetneqq;"@
    } else if index == 2143 {
        "varsupsetneq;"@
    } else if index == 2144 {
        "varsupsetneqq;"@
    } else if index == 2145 {
        "vartheta;"@
    } else if index == 2146 {
        "vartriangleleft;"@
    } else if index == 2147 {
        "vartriangleright;"@
    } else if index == 2148 {
        "vcy;"@
    } else if index == 2149 {
        "vdash;"@
    } else if index == 2150 {
        "vee;"@
    } else if index == 2151 {
        "veebar;"@
    } else if index == 2152 {
        "veeeq;"@
    } else if index == 2153 {
        "vellip;"@
    } else if index == 2154 {
        "verbar;"@
    } else if index == 2155 {
        "vert;"@
    } else if index == 2156 {
        "vfr;"@
    } else if index == 2157 {
        "vltri;"@
    } else if index == 2158 {
        "vnsub;"@
    } else if index == 2159 {
        "vnsup;"@
    } else if index == 2160 {
        "vopf;"@
    } else if index == 2161 {
        "vprop;"@
    } else if index == 2162 {
        "vrtri;"@
    } else if index == 2163 {
        "vscr;"@
    } else if index == 2164 {
        "vsubnE;"@
    } else if index == 2165 {
        "vsubne;"@
    } else if index == 2166 {
        "vsupnE;"@
    } else if index == 2167 {
        "vsupne;"@
    } else if index == 2168 {
        "vzigzag;"@
    } else if index == 2169 {
        "wcirc;"@
    } else if index == 2170 {
        "wedbar;"@
    } else if index == 2171 {
        "wedge;"@
    } else if index == 2172 {
        "wedgeq;"@
    } else if index == 2173 {
        "weierp;"@
    } else if index == 2174 {
        "wfr;"@
    } else if index == 2175 {
        "wopf;"@
    } else {
        Seq::empty()
    }
}

/// The characters that the references 2112 to 2175 stand for.
#[verifier::opaque]
pub open spec fn texts_2112(index: int) -> Seq<char> {
    if index == 2112 {
        "\u{21C8}"@
    } else if index == 2113 {
        "\u{231D}"@
    } else if index == 2114 {
        "\u{231D}"@
    } else if index == 2115 {
        "\u{230E}"@
    } else if index == 2116 {
        "\u{16F}"@
    } else if index == 2117 {
        "\u{25F9}"@
    } else if index == 2118 {
        "\u{1D4CA}"@
    } else if index == 2119 {
        "\u{22F0}"@
    } else if index == 2120 {
        "\u{169}"@
    } else if index == 2121 {
        "\u{25B5}"@
    } else if index == 2122 {
        "\u{25B4}"@
    } else if index == 2123 {
        "\u{21C8}"@
    } else if index == 2124 {
        "\u{FC}"@
    } else if index == 2125 {
        "\u{FC}"@
    } else if index == 2126 {
        "\u{29A7}"@
    } else if index == 2127 {
        "\u{21D5}"@
    } else if index == 2128 {
        "\u{2AE8}"@
    } else if index == 2129 {
        "\u{2AE9}"@
    } else if index == 2130 {
        "\u{22A8}"@
    } else if index == 2131 {
        "\u{299C}"@
    } else if index == 2132 {
        "\u{3F5}"@
    } else if index == 2133 {
        "\u{3F0}"@
    } else if index == 2134 {
        "\u{2205}"@
    } else if index == 2135 {
        "\u{3D5}"@
    } else if index == 2136 {
        "\u{3D6}"@
    } else if index == 2137 {
        "\u{221D}"@
    } else if index == 2138 {
        "\u{2195}"@
    } else if index == 2139 {
        "\u{3F1}"@
    } else if index == 2140 {
        "\u{3C2}"@
    } else if index == 2141 {
        "\u{228A}\u{FE00}"@
    } else if index == 2142 {
        "\u{2ACB}\u{FE00}"@
    } else if index == 2143 {
        "\u{228B}\u{FE00}"@
    } else if index == 2144 {
        "\u{2ACC}\u{FE00}"@
    } else if index == 2145 {
        "\u{3D1}"@
    } else if index == 2146 {
        "\u{22B2}"@
    } else if index == 2147 {
        "\u{22B3}"@
    } else if index == 2148 {
        "\u{432}"@
    } else if index == 2149 {
        "\u{22A2}"@
    } else if index == 2150 {
        "\u{2228}"@
    } else if index == 2151 {
        "\u{22BB}"@
    } else if index == 2152 {
        "\u{225A}"@
    } else if index == 2153 {
        "\u{22EE}"@
    } else if index == 2154 {
        "\u{7C}"@
    } else if index == 2155 {
        "\u{7C}"@
    } else if index == 2156 {
        "\u{1D533}"@
    } else if index == 2157 {
        "\u{22B2}"@
    } else if index == 2158 {
        "\u{2282}\u{20D2}"@
    } else if index == 2159 {
        "\u{2283}\u{20D2}"@
    } else if index == 2160 {
        "\u{1D567}"@
    } else if index == 2161 {
        "\u{221D}"@
    } else if index == 2162 {
        "\u{22B3}"@
    } else if index == 2163 {
        "\u{1D4CB}"@
    } else if index == 2164 {
        "\u{2ACB}\u{FE00}"@
    } else if index == 2165 {
        "\u{228A}\u{FE00}"@
    } else if index == 2166 {
        "\u{2ACC}\u{FE00}"@
    } else if index == 2167 {
        "\u{228B}\u{FE00}"@
    } else if index == 2168 {
        "\u{299A}"@
    } else if index == 2169 {
        "\u{175}"@
    } else if index == 2170 {
        "\u{2A5F}"@
    } else if index == 2171 {
        "\u{2227}"@
    } else if index == 2172 {
        "\u{2259}"@
    } else if index == 2173 {
        "\u{2118}"@
    } else if index == 2174 {
        "\u{1D534}"@
    } else if index == 2175 {
        "\u{1D568}"@
    } else {
        Seq::empty()
    }
}

/// The name of the reference `index` and the characters that it stands for.
pub fn entry_2112(index: usize) -> (r: (&'static str, &'static str))
    ensures
        r.0@ == names_2112(index as int),
        r.1@ == texts_2112(index as int),
{
    proof {
        reveal(names_2112);
        reveal(texts_2112);
        reveal_strlit("");
    }
    match index {
        2112 => ("upuparrows;", "\u{21C8}"),
        2113 => ("urcorn;", "\u{231D}"),
        2114 => ("urcorner;", "\u{231D}"),
        2115 => ("urcrop;", "\u{230E}"),
        2116 => ("uring;", "\u{16F}"),
        2117 => ("urtri;", "\u{25F9}"),
        2118 => ("uscr;", "\u{1D4CA}"),
        2119 => ("utdot;", "\u{22F0}"),
        2120 => ("utilde;", "\u{169}"),
        2121 => ("utri;", "\u{25B5}"),
        2122 => ("utrif;", "\u{25B4}"),
        2123 => ("uuarr;", "\u{21C8}"),
        2124 => ("uuml", "\u{FC}"),
        2125 => ("uuml;", "\u{FC}"),
        2126 => ("uwangle;", "\u{29A7}"),
        2127 => ("vArr;", "\u{21D5}"),
        2128 => ("vBar;", "\u{2AE8}"),
        2129 => ("vBarv;", "\u{2AE9}"),
        2130 => ("vDash;", "\u{22A8}"),
        2131 => ("vangrt;", "\u{299C}"),
        2132 => ("varepsilon;", "\u{3F5}"),
        2133 => ("varkappa;", "\u{3F0}"),
        2134 => ("varnothing;", "\u{2205}"),
        2135 => ("varphi;", "\u{3D5}"),
        2136 => ("varpi;", "\u{3D6}"),
        2137 => ("varpropto;", "\u{221D}"),
        2138 => ("varr;", "\u{2195}"),
        2139 => ("varrho;", "\u{3F1}"),
        2140 => ("varsigma;", "\u{3C2}"),
        2141 => ("varsubsetneq;", "\u{228A}\u{FE00}"),
        2142 => ("varsubsetneqq;", "\u{2ACB}\u{FE00}"),
        2143 => ("varsupsetneq;", "\u{228B}\u{FE00}"),
        2144 => ("varsupsetneqq;", "\u{2ACC}\u{FE00}"),
        2145 => ("vartheta;", "\u{3D1}"),
        2146 => ("vartriangleleft;", "\u{22B2}"),
        2147 => ("vartriangleright;", "\u{22B3}"),
        2148 => ("vcy;", "\u{432}"),
        2149 => ("vdash;", "\u{22A2}"),
        2150 => ("vee;", "\u{2228}"),
        2151 => ("veebar;", "\u{22BB}"),
        2152 => ("veeeq;", "\u{225A}"),
        2153 => ("vellip;", "\u{22EE}"),
        2154 => ("verbar;", "\u{7C}"),
        2155 => ("vert;", "\u{7C}"),
        2156 => ("vfr;", "\u{1D533}"),
        2157 => ("vltri;", "\u{22B2}"),
        2158 => ("vnsub;", "\u{2282}\u{20D2}"),
        2159 => ("vnsup;", "\u{2283}\u{20D2}"),
        2160 => ("vopf;", "\u{1D567}"),
        2161 => ("vprop;", "\u{221D}"),
        2162 => ("vrtri;", "\u{22B3}"),
        2163 => ("vscr;", "\u{1D4CB}"),
        2164 => ("vsubnE;", "\u{2ACB}\u{FE00}"),
        2165 => ("vsubne;", "\u{228A}\u{FE00}"),
        2166 => ("vsupnE;", "\u{2ACC}\u{FE00}"),
        2167 => ("vsupne;", "\u{228B}\u{FE00}"),
        2168 => ("vzigzag;", "\u{299A}"),
        2169 => ("wcirc;", "\u{175}"),
        2170 => ("wedbar;", "\u{2A5F}"),
        2171 => ("wedge;", "\u{2227}"),
        2172 => ("wedgeq;", "\u{2259}"),
        2173 => ("weierp;", "\u{2118}"),
        2174 => ("wfr;", "\u{1D534}"),
        2175 => ("wopf;", "\u{1D568}"),
        _ => ("", ""),
    }
}

/// The names of the references 2176 to 2230, from `&wp;` to `&zwnj;`.
#[verifier::opaque]
pub open spec fn names_2176(index: int) -> Seq<char> {
    if index == 2176 {
        "wp;"@
    } else if index == 2177 {
        "wr;"@
    } else if index == 2178 {
        "wreath;"@
    } else if index == 2179 {
        "wscr;"@
    } else if index == 2180 {
        "xcap;"@
    } else if index == 2181 {
        "xcirc;"@
    } else if index == 2182 {
        "xcup;"@
    } else if index == 2183 {
        "xdtri;"@
    } else if index == 2184 {
        "xfr;"@
    } else if index == 2185 {
        "xhArr;"@
    } else if index == 2186 {
        "xharr;"@
    } else if index == 2187 {
        "xi;"@
    } else if index == 2188 {
        "xlArr;"@
    } else if index == 2189 {
        "xlarr;"@
    } else if index == 2190 {
        "xmap;"@
    } else if index == 2191 {
        "xnis;"@
    } else if index == 2192 {
        "xodot;"@
    } else if index == 2193 {
        "xopf;"@
    } else if index == 2194 {
        "xoplus;"@
    } else if index == 2195 {
        "xotime;"@
    } else if index == 2196 {
        "xrArr;"@
    } else if index == 2197 {
        "xrarr;"@
    } else if index == 2198 {
        "xscr;"@
    } else if index == 2199 {
        "xsqcup;"@
    } else if index == 2200 {
        "xuplus;"@
    } else if index == 2201 {
        "xutri;"@
    } else if index == 2202 {
        "xvee;"@
    } else if index == 2203 {
        "xwedge;"@
    } else if index == 2204 {
        "yacute"@
    } else if index == 2205 {
        "yacute;"@
    } else if index == 2206 {
        "yacy;"@
    } else if index == 2207 {
        "ycirc;"@
    } else if index == 2208 {
        "ycy;"@
    } else if index == 2209 {
        "yen"@
    } else if index == 2210 {
        "yen;"@
    } else if index == 2211 {
        "yfr;"@
    } else if index == 2212 {
        "yicy;"@
    } else if index == 2213 {
        "yopf;"@
    } else if index == 2214 {
        "yscr;"@
    } else if index == 2215 {
        "yucy;"@
    } else if index == 2216 {
        "yuml"@
    } else if index == 2217 {
        "yuml;"@
    } else if index == 2218 {
        "zacute;"@
    } else if index == 2219 {
        "zcaron;"@
    } else if index == 2220 {
        "zcy;"@
    } else if index == 2221 {
        "zdot;"@
    } else if index == 2222 {
        "zeetrf;"@
    } else if index == 2223 {
        "zeta;"@
    } else if index == 2224 {
        "zfr;"@
    } else if index == 2225 {
        "zhcy;"@
    } else if index == 2226 {
        "zigrarr;"@
    } else if index == 2227 {
        "zopf;"@
    } else if index == 2228 {
        "zscr;"@
    } else if index == 2229 {
        "zwj;"@
    } else if index == 2230 {
        "zwnj;"@
    } else {
        Seq::empty()
    }
}

/// The characters that the references 2176 to 2230 stand for.
#[verifier::opaque]
pub open spec fn texts_2176(index: int) -> Seq<char> {
    if index == 2176 {
        "\u{2118}"@
    } else if index == 2177 {
        "\u{2240}"@
    } else if index == 2178 {
        "\u{2240}"@
    } else if index == 2179 {
        "\u{1D4CC}"@
    } else if index == 2180 {
        "\u{22C2}"@
    } else if index == 2181 {
        "\u{25EF}"@
    } else if index == 2182 {
        "\u{22C3}"@
    } else if index == 2183 {
        "\u{25BD}"@
    } else if index == 2184 {
        "\u{1D535}"@
    } else if index == 2185 {
        "\u{27FA}"@
    } else if index == 2186 {
        "\u{27F7}"@
    } else if index == 2187 {
        "\u{3BE}"@
    } else if index == 2188 {
        "\u{27F8}"@
    } else if index == 2189 {
        "\u{27F5}"@
    } else if index == 2190 {
        "\u{27FC}"@
    } else if index == 2191 {
        "\u{22FB}"@
    } else if index == 2192 {
        "\u{2A00}"@
    } else if index == 2193 {
        "\u{1D569}"@
    } else if index == 2194 {
        "\u{2A01}"@
    } else if index == 2195 {
        "\u{2A02}"@
    } else if index == 2196 {
        "\u{27F9}"@
    } else if index == 2197 {
        "\u{27F6}"@
    } else if index == 2198 {
        "\u{1D4CD}"@
    } else if index == 2199 {
        "\u{2A06}"@
    } else if index == 2200 {
        "\u{2A04}"@
    } else if index == 2201 {
        "\u{25B3}"@
    } else if index == 2202 {
        "\u{22C1}"@
    } else if index == 2203 {
        "\u{22C0}"@
    } else if index == 2204 {
        "\u{FD}"@
    } else if index == 2205 {
        "\u{FD}"@
    } else if index == 2206 {
        "\u{44F}"@
    } else if index == 2207 {
        "\u{177}"@
    } else if index == 2208 {
        "\u{44B}"@
    } else if index == 2209 {
        "\u{A5}"@
    } else if index == 2210 {
        "\u{A5}"@
    } else if index == 2211 {
        "\u{1D536}"@
    } else if index == 2212 {
        "\u{457}"@
    } else if index == 2213 {
        "\u{1D56A}"@
    } else if index == 2214 {
        "\u{1D4CE}"@
    } else if index == 2215 {
        "\u{44E}"@
    } else if index == 2216 {
        "\u{FF}"@
    } else if index == 2217 {
        "\u{FF}"@
    } else if index == 2218 {
        "\u{17A}"@
    } else if index == 2219 {
        "\u{17E}"@
    } else if index == 2220 {
        "\u{437}"@
    } else if index == 2221 {
        "\u{17C}"@
    } else if index == 2222 {
        "\u{2128}"@
    } else if index == 2223 {
        "\u{3B6}"@
    } else if index == 2224 {
        "\u{1D537}"@
    } else if index == 2225 {
        "\u{436}"@
    } else if index == 2226 {
        "\u{21DD}"@
    } else if index == 2227 {
        "\u{1D56B}"@
    } else if index == 2228 {
        "\u{1D4CF}"@
    } else if index == 2229 {
        "\u{200D}"@
    } else if index == 2230 {
        "\u{200C}"@
    } else {
        Seq::empty()
    }
}

/// The name of the reference `index` and the characters that it stands for.
pub fn entry_2176(index: usize) -> (r: (&'static str, &'static str))
    ensures
        r.0@ == names_2176(index as int),
        r.1@ == texts_2176(index as int),
{
    proof {
        reveal(names_2176);
        reveal(texts_2176);
        reveal_strlit("");
    }
    match index {
        2176 => ("wp;", "\u{2118}"),
        2177 => ("wr;", "\u{2240}"),
        2178 => ("wreath;", "\u{2240}"),
        2179 => ("wscr;", "\u{1D4CC}"),
        2180 => ("xcap;", "\u{22C2}"),
        2181 => ("xcirc;", "\u{25EF}"),
        2182 => ("xcup;", "\u{22C3}"),
        2183 => ("xdtri;", "\u{25BD}"),
        2184 => ("xfr;", "\u{1D535}"),
        2185 => ("xhArr;", "\u{27FA}"),
        2186 => ("xharr;", "\u{27F7}"),
        2187 => ("xi;", "\u{3BE}"),
        2188 => ("xlArr;", "\u{27F8}"),
        2189 => ("xlarr;", "\u{27F5}"),
        2190 => ("xmap;", "\u{27FC}"),
        2191 => ("xnis;", "\u{22FB}"),
        2192 => ("xodot;", "\u{2A00}"),
        2193 => ("xopf;", "\u{1D569}"),
        2194 => ("xoplus;", "\u{2A01}"),
        2195 => ("xotime;", "\u{2A02}"),
        2196 => ("xrArr;", "\u{27F9}"),
        2197 => ("xrarr;", "\u{27F6}"),
        2198 => ("xscr;", "\u{1D4CD}"),
        2199 => ("xsqcup;", "\u{2A06}"),
        2200 => ("xuplus;", "\u{2A04}"),
        2201 => ("xutri;", "\u{25B3}"),
        2202 => ("xvee;", "\u{22C1}"),
        2203 => ("xwedge;", "\u{22C0}"),
        2204 => ("yacute", "\u{FD}"),
        2205 => ("yacute;", "\u{FD}"),
        2206 => ("yacy;", "\u{44F}"),
        2207 => ("ycirc;", "\u{177}"),
        2208 => ("ycy;", "\u{44B}"),
        2209 => ("yen", "\u{A5}"),
        2210 => ("yen;", "\u{A5}"),
        2211 => ("yfr;", "\u{1D536}"),
        2212 => ("yicy;", "\u{457}"),
        2213 => ("yopf;", "\u{1D56A}"),
        2214 => ("yscr;", "\u{1D4CE}"),
        2215 => ("yucy;", "\u{44E}"),
        2216 => ("yuml", "\u{FF}"),
        2217 => ("yuml;", "\u{FF}"),
        2218 => ("zacute;", "\u{17A}"),
        2219 => ("zcaron;", "\u{17E}"),
        2220 => ("zcy;", "\u{437}"),
        2221 => ("zdot;", "\u{17C}"),
        2222 => ("zeetrf;", "\u{2128}"),
        2223 => ("zeta;", "\u{3B6}"),
        2224 => ("zfr;", "\u{1D537}"),
        2225 => ("zhcy;", "\u{436}"),
        2226 => ("zigrarr;", "\u{21DD}"),
        2227 => ("zopf;", "\u{1D56B}"),
        2228 => ("zscr;", "\u{1D4CF}"),
        2229 => ("zwj;", "\u{200D}"),
        2230 => ("zwnj;", "\u{200C}"),
        _ => ("", ""),
    }
}

} // verus!
