use vstd::prelude::*;

verus! {

/// The names of the references 1024 to 1087, from `&epsilon;` to `&frasl;`.
#[verifier::opaque]
pub open spec fn names_1024(index: int) -> Seq<char> {
    if index == 1024 {
        "epsilon;"@
    } else if index == 1025 {
        "epsiv;"@
    } else if index == 1026 {
        "eqcirc;"@
    } else if index == 1027 {
        "eqcolon;"@
    } else if index == 1028 {
        "eqsim;"@
    } else if index == 1029 {
        "eqslantgtr;"@
    } else if index == 1030 {
        "eqslantless;"@
    } else if index == 1031 {
        "equals;"@
    } else if index == 1032 {
        "equest;"@
    } else if index == 1033 {
        "equiv;"@
    } else if index == 1034 {
        "equivDD;"@
    } else if index == 1035 {
        "eqvparsl;"@
    } else if index == 1036 {
        "erDot;"@
    } else if index == 1037 {
        "erarr;"@
    } else if index == 1038 {
        "escr;"@
    } else if index == 1039 {
        "esdot;"@
    } else if index == 1040 {
        "esim;"@
    } else if index == 1041 {
        "eta;"@
    } else if index == 1042 {
        "eth"@
    } else if index == 1043 {
        "eth;"@
    } else if index == 1044 {
        "euml"@
    } else if index == 1045 {
        "euml;"@
    } else if index == 1046 {
        "euro;"@
    } else if index == 1047 {
        "excl;"@
    } else if index == 1048 {
        "exist;"@
    } else if index == 1049 {
        "expectation;"@
    } else if index == 1050 {
        "exponentiale;"@
    } else if index == 1051 {
        "fallingdotseq;"@
    } else if index == 1052 {
        "fcy;"@
    } else if index == 1053 {
        "female;"@
    } else if index == 1054 {
        "ffilig;"@
    } else if index == 1055 {
        "fflig;"@
    } else if index == 1056 {
        "ffllig;"@
    } else if index == 1057 {
        "ffr;"@
    } else if index == 1058 {
        "filig;"@
    } else if index == 1059 {
        "fjlig;"@
    } else if index == 1060 {
        "flat;"@
    } else if index == 1061 {
        "fllig;"@
    } else if index == 1062 {
        "fltns;"@
    } else if index == 1063 {
        "fnof;"@
    } else if index == 1064 {
        "fopf;"@
    } else if index == 1065 {
        "forall;"@
    } else if index == 1066 {
        "fork;"@
    } else if index == 1067 {
        "forkv;"@
    } else if index == 1068 {
        "fpartint;"@
    } else if index == 1069 {
        "frac12"@
    } else if index == 1070 {
        "frac12;"@
    } else if index == 1071 {
        "frac13;"@
    } else if index == 1072 {
        "frac14"@
    } else if index == 1073 {
        "frac14;"@
    } else if index == 1074 {
        "frac15;"@
    } else if index == 1075 {
        "frac16;"@
    } else if index == 1076 {
        "frac18;"@
    } else if index == 1077 {
        "frac23;"@
    } else if index == 1078 {
        "frac25;"@
    } else if index == 1079 {
        "frac34"@
    } else if index == 1080 {
        "frac34;"@
    } else if index == 1081 {
        "frac35;"@
    } else if index == 1082 {
        "frac38;"@
    } else if index == 1083 {
        "frac45;"@
    } else if index == 1084 {
        "frac56;"@
    } else if index == 1085 {
        "frac58;"@
    } else if index == 1086 {
        "frac78;"@
    } else if index == 1087 {
        "frasl;"@
    } else {
        Seq::empty()
    }
}

/// The characters that the references 1024 to 1087 stand for.
#[verifier::opaque]
pub open spec fn texts_1024(index: int) -> Seq<char> {
    if index == 1024 {
        "\u{3B5}"@
    } else if index == 1025 {
        "\u{3F5}"@
    } else if index == 1026 {
        "\u{2256}"@
    } else if index == 1027 {
        "\u{2255}"@
    } else if index == 1028 {
        "\u{2242}"@
    } else if index == 1029 {
        "\u{2A96}"@
    } else if index == 1030 {
        "\u{2A95}"@
    } else if index == 1031 {
        "\u{3D}"@
    } else if index == 1032 {
        "\u{225F}"@
    } else if index == 1033 {
        "\u{2261}"@
    } else if index == 1034 {
        "\u{2A78}"@
    } else if index == 1035 {
        "\u{29E5}"@
    } else if index == 1036 {
        "\u{2253}"@
    } else if index == 1037 {
        "\u{2971}"@
    } else if index == 1038 {
        "\u{212F}"@
    } else if index == 1039 {
        "\u{2250}"@
    } else if index == 1040 {
        "\u{2242}"@
    } else if index == 1041 {
        "\u{3B7}"@
    } else if index == 1042 {
        "\u{F0}"@
    } else if index == 1043 {
        "\u{F0}"@
    } else if index == 1044 {
        "\u{EB}"@
    } else if index == 1045 {
        "\u{EB}"@
    } else if index == 1046 {
        "\u{20AC}"@
    } else if index == 1047 {
        "\u{21}"@
    } else if index == 1048 {
        "\u{2203}"@
    } else if index == 1049 {
        "\u{2130}"@
    } else if index == 1050 {
        "\u{2147}"@
    } else if index == 1051 {
        "\u{2252}"@
    } else if index == 1052 {
        "\u{444}"@
    } else if index == 1053 {
        "\u{2640}"@
    } else if index == 1054 {
        "\u{FB03}"@
    } else if index == 1055 {
        "\u{FB00}"@
    } else if index == 1056 {
        "\u{FB04}"@
    } else if index == 1057 {
        "\u{1D523}"@
    } else if index == 1058 {
        "\u{FB01}"@
    } else if index == 1059 {
        "\u{66}\u{6A}"@
    } else if index == 1060 {
        "\u{266D}"@
    } else if index == 1061 {
        "\u{FB02}"@
    } else if index == 1062 {
        "\u{25B1}"@
    } else if index == 1063 {
        "\u{192}"@
    } else if index == 1064 {
        "\u{1D557}"@
    } else if index == 1065 {
        "\u{2200}"@
    } else if index == 1066 {
        "\u{22D4}"@
    } else if index == 1067 {
        "\u{2AD9}"@
    } else if index == 1068 {
        "\u{2A0D}"@
    } else if index == 1069 {
        "\u{BD}"@
    } else if index == 1070 {
        "\u{BD}"@
    } else if index == 1071 {
        "\u{2153}"@
    } else if index == 1072 {
        "\u{BC}"@
    } else if index == 1073 {
        "\u{BC}"@
    } else if index == 1074 {
        "\u{2155}"@
    } else if index == 1075 {
        "\u{2159}"@
    } else if index == 1076 {
        "\u{215B}"@
    } else if index == 1077 {
        "\u{2154}"@
    } else if index == 1078 {
        "\u{2156}"@
    } else if index == 1079 {
        "\u{BE}"@
    } else if index == 1080 {
        "\u{BE}"@
    } else if index == 1081 {
        "\u{2157}"@
    } else if index == 1082 {
        "\u{215C}"@
    } else if index == 1083 {
        "\u{2158}"@
    } else if index == 1084 {
        "\u{215A}"@
    } else if index == 1085 {
        "\u{215D}"@
    } else if index == 1086 {
        "\u{215E}"@
    } else if index == 1087 {
        "\u{2044}"@
    } else {
        Seq::empty()
    }
}

/// The name of the reference `index` and the characters that it stands for.
pub fn entry_1024(index: usize) -> (r: (&'static str, &'static str))
    ensures
        r.0@ == names_1024(index as int),
        r.1@ == texts_1024(index as int),
{
    proof {
        reveal(names_1024);
        reveal(texts_1024);
        reveal_strlit("");
    }
    match index {
        1024 => ("epsilon;", "\u{3B5}"),
        1025 => ("epsiv;", "\u{3F5}"),
        1026 => ("eqcirc;", "\u{2256}"),
        1027 => ("eqcolon;", "\u{2255}"),
        1028 => ("eqsim;", "\u{2242}"),
        1029 => ("eqslantgtr;", "\u{2A96}"),
        1030 => ("eqslantless;", "\u{2A95}"),
        1031 => ("equals;", "\u{3D}"),
        1032 => ("equest;", "\u{225F}"),
        1033 => ("equiv;", "\u{2261}"),
        1034 => ("equivDD;", "\u{2A78}"),
        1035 => ("eqvparsl;", "\u{29E5}"),
        1036 => ("erDot;", "\u{2253}"),
        1037 => ("erarr;", "\u{2971}"),
        1038 => ("escr;", "\u{212F}"),
        1039 => ("esdot;", "\u{2250}"),
        1040 => ("esim;", "\u{2242}"),
        1041 => ("eta;", "\u{3B7}"),
        1042 => ("eth", "\u{F0}"),
        1043 => ("eth;", "\u{F0}"),
        1044 => ("euml", "\u{EB}"),
        1045 => ("euml;", "\u{EB}"),
        1046 => ("euro;", "\u{20AC}"),
        1047 => ("excl;", "\u{21}"),
        1048 => ("exist;", "\u{2203}"),
        1049 => ("expectation;", "\u{2130}"),
        1050 => ("exponentiale;", "\u{2147}"),
        1051 => ("fallingdotseq;", "\u{2252}"),
        1052 => ("fcy;", "\u{444}"),
        1053 => ("female;", "\u{2640}"),
        1054 => ("ffilig;", "\u{FB03}"),
        1055 => ("fflig;", "\u{FB00}"),
        1056 => ("ffllig;", "\u{FB04}"),
        1057 => ("ffr;", "\u{1D523}"),
        1058 => ("filig;", "\u{FB01}"),
        1059 => ("fjlig;", "\u{66}\u{6A}"),
        1060 => ("flat;", "\u{266D}"),
        1061 => ("fllig;", "\u{FB02}"),
        1062 => ("fltns;", "\u{25B1}"),
        1063 => ("fnof;", "\u{192}"),
        1064 => ("fopf;", "\u{1D557}"),
        1065 => ("forall;", "\u{2200}"),
        1066 => ("fork;", "\u{22D4}"),
        1067 => ("forkv;", "\u{2AD9}"),
        1068 => ("fpartint;", "\u{2A0D}"),
        1069 => ("frac12", "\u{BD}"),
        1070 => ("frac12;", "\u{BD}"),
        1071 => ("frac13;", "\u{2153}"),
        1072 => ("frac14", "\u{BC}"),
        1073 => ("frac14;", "\u{BC}"),
        1074 => ("frac15;", "\u{2155}"),
        1075 => ("frac16;", "\u{2159}"),
        1076 => ("frac18;", "\u{215B}"),
        1077 => ("frac23;", "\u{2154}"),
        1078 => ("frac25;", "\u{2156}"),
        1079 => ("frac34", "\u{BE}"),
        1080 => ("frac34;", "\u{BE}"),
        1081 => ("frac35;", "\u{2157}"),
        1082 => ("frac38;", "\u{215C}"),
        1083 => ("frac45;", "\u{2158}"),
        1084 => ("frac56;", "\u{215A}"),
        1085 => ("frac58;", "\u{215D}"),
        1086 => ("frac78;", "\u{215E}"),
        1087 => ("frasl;", "\u{2044}"),
        _ => ("", ""),
    }
}

/// The names of the references 1088 to 1151, from `&frown;` to `&hairsp;`.
#[verifier::opaque]
pub open spec fn names_1088(index: int) -> Seq<char> {
    if index == 1088 {
        "frown;"@
    } else if index == 1089 {
        "fscr;"@
    } else if index == 1090 {
        "gE;"@
    } else if index == 1091 {
        "gEl;"@
    } else if index == 1092 {
        "gacute;"@
    } else if index == 1093 {
        "gamma;"@
    } else if index == 1094 {
        "gammad;"@
    } else if index == 1095 {
        "gap;"@
    } else if index == 1096 {
        "gbreve;"@
    } else if index == 1097 {
        "gcirc;"@
    } else if index == 1098 {
        "gcy;"@
    } else if index == 1099 {
        "gdot;"@
    } else if index == 1100 {
        "ge;"@
    } else if index == 1101 {
        "gel;"@
    } else if index == 1102 {
        "geq;"@
    } else if index == 1103 {
        "geqq;"@
    } else if index == 1104 {
        "geqslant;"@
    } else if index == 1105 {
        "ges;"@
    } else if index == 1106 {
        "gescc;"@
    } else if index == 1107 {
        "gesdot;"@
    } else if index == 1108 {
        "gesdoto;"@
    } else if index == 1109 {
        "gesdotol;"@
    } else if index == 1110 {
        "gesl;"@
    } else if index == 1111 {
        "gesles;"@
    } else if index == 1112 {
        "gfr;"@
    } else if index == 1113 {
        "gg;"@
    } else if index == 1114 {
        "ggg;"@
    } else if index == 1115 {
        "gimel;"@
    } else if index == 1116 {
        "gjcy;"@
    } else if index == 1117 {
        "gl;"@
    } else if index == 1118 {
        "glE;"@
    } else if index == 1119 {
        "gla;"@
    } else if index == 1120 {
        "glj;"@
    } else if index == 1121 {
        "gnE;"@
    } else if index == 1122 {
        "gnap;"@
    } else if index == 1123 {
        "gnapprox;"@
    } else if index == 1124 {
        "gne;"@
    } else if index == 1125 {
        "gneq;"@
    } else if index == 1126 {
        "gneqq;"@
    } else if index == 1127 {
        "gnsim;"@
    } else if index == 1128 {
        "gopf;"@
    } else if index == 1129 {
        "grave;"@
    } else if index == 1130 {
        "gscr;"@
    } else if index == 1131 {
        "gsim;"@
    } else if index == 1132 {
        "gsime;"@
    } else if index == 1133 {
        "gsiml;"@
    } else if index == 1134 {
        "gt"@
    } else if index == 1135 {
        "gt;"@
    } else if index == 1136 {
        "gtcc;"@
    } else if index == 1137 {
        "gtcir;"@
    } else if index == 1138 {
        "gtdot;"@
    } else if index == 1139 {
        "gtlPar;"@
    } else if index == 1140 {
        "gtquest;"@
    } else if index == 1141 {
        "gtrapprox;"@
    } else if index == 1142 {
        "gtrarr;"@
    } else if index == 1143 {
        "gtrdot;"@
    } else if index == 1144 {
        "gtreqless;"@
    } else if index == 1145 {
        "gtreqqless;"@
    } else if index == 1146 {
        "gtrless;"@
    } else if index == 1147 {
        "gtrsim;"@
    } else if index == 1148 {
        "gvertneqq;"@
    } else if index == 1149 {
        "gvnE;"@
    } else if index == 1150 {
        "hArr;"@
    } else if index == 1151 {
        "hairsp;"@
    } else {
        Seq::empty()
    }
}

/// The characters that the references 1088 to 1151 stand for.
#[verifier::opaque]
pub open spec fn texts_1088(index: int) -> Seq<char> {
    if index == 1088 {
        "\u{2322}"@
    } else if index == 1089 {
        "\u{1D4BB}"@
    } else if index == 1090 {
        "\u{2267}"@
    } else if index == 1091 {
        "\u{2A8C}"@
    } else if index == 1092 {
        "\u{1F5}"@
    } else if index == 1093 {
        "\u{3B3}"@
    } else if index == 1094 {
        "\u{3DD}"@
    } else if index == 1095 {
        "\u{2A86}"@
    } else if index == 1096 {
        "\u{11F}"@
    } else if index == 1097 {
        "\u{11D}"@
    } else if index == 1098 {
        "\u{433}"@
    } else if index == 1099 {
        "\u{121}"@
    } else if index == 1100 {
        "\u{2265}"@
    } else if index == 1101 {
        "\u{22DB}"@
    } else if index == 1102 {
        "\u{2265}"@
    } else if index == 1103 {
        "\u{2267}"@
    } else if index == 1104 {
        "\u{2A7E}"@
    } else if index == 1105 {
        "\u{2A7E}"@
    } else if index == 1106 {
        "\u{2AA9}"@
    } else if index == 1107 {
        "\u{2A80}"@
    } else if index == 1108 {
        "\u{2A82}"@
    } else if index == 1109 {
        "\u{2A84}"@
    } else if index == 1110 {
        "\u{22DB}\u{FE00}"@
    } else if index == 1111 {
        "\u{2A94}"@
    } else if index == 1112 {
        "\u{1D524}"@
    } else if index == 1113 {
        "\u{226B}"@
    } else if index == 1114 {
        "\u{22D9}"@
    } else if index == 1115 {
        "\u{2137}"@
    } else if index == 1116 {
        "\u{453}"@
    } else if index == 1117 {
        "\u{2277}"@
    } else if index == 1118 {
        "\u{2A92}"@
    } else if index == 1119 {
        "\u{2AA5}"@
    } else if index == 1120 {
        "\u{2AA4}"@
    } else if index == 1121 {
        "\u{2269}"@
    } else if index == 1122 {
        "\u{2A8A}"@
    } else if index == 1123 {
        "\u{2A8A}"@
    } else if index == 1124 {
        "\u{2A88}"@
    } else if index == 1125 {
        "\u{2A88}"@
    } else if index == 1126 {
        "\u{2269}"@
    } else if index == 1127 {
        "\u{22E7}"@
    } else if index == 1128 {
        "\u{1D558}"@
    } else if index == 1129 {
        "\u{60}"@
    } else if index == 1130 {
        "\u{210A}"@
    } else if index == 1131 {
        "\u{2273}"@
    } else if index == 1132 {
        "\u{2A8E}"@
    } else if index == 1133 {
        "\u{2A90}"@
    } else if index == 1134 {
        "\u{3E}"@
    } else if index == 1135 {
        "\u{3E}"@
    } else if index == 1136 {
        "\u{2AA7}"@
    } else if index == 1137 {
        "\u{2A7A}"@
    } else if index == 1138 {
        "\u{22D7}"@
    } else if index == 1139 {
        "\u{2995}"@
    } else if index == 1140 {
        "\u{2A7C}"@
    } else if index == 1141 {
        "\u{2A86}"@
    } else if index == 1142 {
        "\u{2978}"@
    } else if index == 1143 {
        "\u{22D7}"@
    } else if index == 1144 {
        "\u{22DB}"@
    } else if index == 1145 {
        "\u{2A8C}"@
    } else if index == 1146 {
        "\u{2277}"@
    } else if index == 1147 {
        "\u{2273}"@
    } else if index == 1148 {
        "\u{2269}\u{FE00}"@
    } else if index == 1149 {
        "\u{2269}\u{FE00}"@
    } else if index == 1150 {
        "\u{21D4}"@
    } else if index == 1151 {
        "\u{200A}"@
    } else {
        Seq::empty()
    }
}

/// The name of the reference `index` and the characters that it stands for.
pub fn entry_1088(index: usize) -> (r: (&'static str, &'static str))
    ensures
        r.0@ == names_1088(index as int),
        r.1@ == texts_1088(index as int),
{
    proof {
        reveal(names_1088);
        reveal(texts_1088);
        reveal_strlit("");
    }
    match index {
        1088 => ("frown;", "\u{2322}"),
        1089 => ("fscr;", "\u{1D4BB}"),
        1090 => ("gE;", "\u{2267}"),
        1091 => ("gEl;", "\u{2A8C}"),
        1092 => ("gacute;", "\u{1F5}"),
        1093 => ("gamma;", "\u{3B3}"),
        1094 => ("gammad;", "\u{3DD}"),
        1095 => ("gap;", "\u{2A86}"),
        1096 => ("gbreve;", "\u{11F}"),
        1097 => ("gcirc;", "\u{11D}"),
        1098 => ("gcy;", "\u{433}"),
        1099 => ("gdot;", "\u{121}"),
        1100 => ("ge;", "\u{2265}"),
        1101 => ("gel;", "\u{22DB}"),
        1102 => ("geq;", "\u{2265}"),
        1103 => ("geqq;", "\u{2267}"),
        1104 => ("geqslant;", "\u{2A7E}"),
        1105 => ("ges;", "\u{2A7E}"),
        1106 => ("gescc;", "\u{2AA9}"),
        1107 => ("gesdot;", "\u{2A80}"),
        1108 => ("gesdoto;", "\u{2A82}"),
        1109 => ("gesdotol;", "\u{2A84}"),
        1110 => ("gesl;", "\u{22DB}\u{FE00}"),
        1111 => ("gesles;", "\u{2A94}"),
        1112 => ("gfr;", "\u{1D524}"),
        1113 => ("gg;", "\u{226B}"),
        1114 => ("ggg;", "\u{22D9}"),
        1115 => ("gimel;", "\u{2137}"),
        1116 => ("gjcy;", "\u{453}"),
        1117 => ("gl;", "\u{2277}"),
        1118 => ("glE;", "\u{2A92}"),
        1119 => ("gla;", "\u{2AA5}"),
        1120 => ("glj;", "\u{2AA4}"),
        1121 => ("gnE;", "\u{2269}"),
        1122 => ("gnap;", "\u{2A8A}"),
        1123 => ("gnapprox;", "\u{2A8A}"),
        1124 => ("gne;", "\u{2A88}"),
        1125 => ("gneq;", "\u{2A88}"),
        1126 => ("gneqq;", "\u{2269}"),
        1127 => ("gnsim;", "\u{22E7}"),
        1128 => ("gopf;", "\u{1D558}"),
        1129 => ("grave;", "\u{60}"),
        1130 => ("gscr;", "\u{210A}"),
        1131 => ("gsim;", "\u{2273}"),
        1132 => ("gsime;", "\u{2A8E}"),
        1133 => ("gsiml;", "\u{2A90}"),
        1134 => ("gt", "\u{3E}"),
        1135 => ("gt;", "\u{3E}"),
        1136 => ("gtcc;", "\u{2AA7}"),
        1137 => ("gtcir;", "\u{2A7A}"),
        1138 => ("gtdot;", "\u{22D7}"),
        1139 => ("gtlPar;", "\u{2995}"),
        1140 => ("gtquest;", "\u{2A7C}"),
        1141 => ("gtrapprox;", "\u{2A86}"),
        1142 => ("gtrarr;", "\u{2978}"),
        1143 => ("gtrdot;", "\u{22D7}"),
        1144 => ("gtreqless;", "\u{22DB}"),
        1145 => ("gtreqqless;", "\u{2A8C}"),
        1146 => ("gtrless;", "\u{2277}"),
        1147 => ("gtrsim;", "\u{2273}"),
        1148 => ("gvertneqq;", "\u{2269}\u{FE00}"),
        1149 => ("gvnE;", "\u{2269}\u{FE00}"),
        1150 => ("hArr;", "\u{21D4}"),
        1151 => ("hairsp;", "\u{200A}"),
        _ => ("", ""),
    }
}

/// The names of the references 1152 to 1215, from `&half;` to `&iocy;`.
#[verifier::opaque]
pub open spec fn names_1152(index: int) -> Seq<char> {
    if index == 1152 {
        "half;"@
    } else if index == 1153 {
        "hamilt;"@
    } else if index == 1154 {
        "hardcy;"@
    } else if index == 1155 {
        "harr;"@
    } else if index == 1156 {
        "harrcir;"@
    } else if index == 1157 {
        "harrw;"@
    } else if index == 1158 {
        "hbar;"@
    } else if index == 1159 {
        "hcirc;"@
    } else if index == 1160 {
        "hearts;"@
    } else if index == 1161 {
        "heartsuit;"@
    } else if index == 1162 {
        "hellip;"@
    } else if index == 1163 {
        "hercon;"@
    } else if index == 1164 {
        "hfr;"@
    } else if index == 1165 {
        "hksearow;"@
    } else if index == 1166 {
        "hkswarow;"@
    } else if index == 1167 {
        "hoarr;"@
    } else if index == 1168 {
        "homtht;"@
    } else if index == 1169 {
        "hookleftarrow;"@
    } else if index == 1170 {
        "hookrightarrow;"@
    } else if index == 1171 {
        "hopf;"@
    } else if index == 1172 {
        "horbar;"@
    } else if index == 1173 {
        "hscr;"@
    } else if index == 1174 {
        "hslash;"@
    } else if index == 1175 {
        "hstrok;"@
    } else if index == 1176 {
        "hybull;"@
    } else if index == 1177 {
        "hyphen;"@
    } else if index == 1178 {
        "iacute"@
    } else if index == 1179 {
        "iacute;"@
    } else if index == 1180 {
        "ic;"@
    } else if index == 1181 {
        "icirc"@
    } else if index == 1182 {
        "icirc;"@
    } else if index == 1183 {
        "icy;"@
    } else if index == 1184 {
        "iecy;"@
    } else if index == 1185 {
        "iexcl"@
    } else if index == 1186 {
        "iexcl;"@
    } else if index == 1187 {
        "iff;"@
    } else if index == 1188 {
        "ifr;"@
    } else if index == 1189 {
        "igrave"@
    } else if index == 1190 {
        "igrave;"@
    } else if index == 1191 {
        "ii;"@
    } else if index == 1192 {
        "iiiint;"@
    } else if index == 1193 {
        "iiint;"@
    } else if index == 1194 {
        "iinfin;"@
    } else if index == 1195 {
        "iiota;"@
    } else if index == 1196 {
        "ijlig;"@
    } else if index == 1197 {
        "imacr;"@
    } else if index == 1198 {
        "image;"@
    } else if index == 1199 {
        "imagline;"@
    } else if index == 1200 {
        "imagpart;"@
    } else if index == 1201 {
        "imath;"@
    } else if index == 1202 {
        "imof;"@
    } else if index == 1203 {
        "imped;"@
    } else if index == 1204 {
        "in;"@
    } else if index == 1205 {
        "incare;"@
    } else if index == 1206 {
        "infin;"@
    } else if index == 1207 {
        "infintie;"@
    } else if index == 1208 {
        "inodot;"@
    } else if index == 1209 {
        "int;"@
    } else if index == 1210 {
        "intcal;"@
    } else if index == 1211 {
        "integers;"@
    } else if index == 1212 {
        "intercal;"@
    } else if index == 1213 {
        "intlarhk;"@
    } else if index == 1214 {
        "intprod;"@
    } else if index == 1215 {
        "iocy;"@
    } else {
        Seq::empty()
    }
}

/// The characters that the references 1152 to 1215 stand for.
#[verifier::opaque]
pub open spec fn texts_1152(index: int) -> Seq<char> {
    if index == 1152 {
        "\u{BD}"@
    } else if index == 1153 {
        "\u{210B}"@
    } else if index == 1154 {
        "\u{44A}"@
    } else if index == 1155 {
        "\u{2194}"@
    } else if index == 1156 {
        "\u{2948}"@
    } else if index == 1157 {
        "\u{21AD}"@
    } else if index == 1158 {
        "\u{210F}"@
    } else if index == 1159 {
        "\u{125}"@
    } else if index == 1160 {
        "\u{2665}"@
    } else if index == 1161 {
        "\u{2665}"@
    } else if index == 1162 {
        "\u{2026}"@
    } else if index == 1163 {
        "\u{22B9}"@
    } else if index == 1164 {
        "\u{1D525}"@
    } else if index == 1165 {
        "\u{2925}"@
    } else if index == 1166 {
        "\u{2926}"@
    } else if index == 1167 {
        "\u{21FF}"@
    } else if index == 1168 {
        "\u{223B}"@
    } else if index == 1169 {
        "\u{21A9}"@
    } else if index == 1170 {
        "\u{21AA}"@
    } else if index == 1171 {
        "\u{1D559}"@
    } else if index == 1172 {
        "\u{2015}"@
    } else if index == 1173 {
        "\u{1D4BD}"@
    } else if index == 1174 {
        "\u{210F}"@
    } else if index == 1175 {
        "\u{127}"@
    } else if index == 1176 {
        "\u{2043}"@
    } else if index == 1177 {
        "\u{2010}"@
    } else if index == 1178 {
        "\u{ED}"@
    } else if index == 1179 {
        "\u{ED}"@
    } else if index == 1180 {
        "\u{2063}"@
    } else if index == 1181 {
        "\u{EE}"@
    } else if index == 1182 {
        "\u{EE}"@
    } else if index == 1183 {
        "\u{438}"@
    } else if index == 1184 {
        "\u{435}"@
    } else if index == 1185 {
        "\u{A1}"@
    } else if index == 1186 {
        "\u{A1}"@
    } else if index == 1187 {
        "\u{21D4}"@
    } else if index == 1188 {
        "\u{1D526}"@
    } else if index == 1189 {
        "\u{EC}"@
    } else if index == 1190 {
        "\u{EC}"@
    } else if index == 1191 {
        "\u{2148}"@
    } else if index == 1192 {
        "\u{2A0C}"@
    } else if index == 1193 {
        "\u{222D}"@
    } else if index == 1194 {
        "\u{29DC}"@
    } else if index == 1195 {
        "\u{2129}"@
    } else if index == 1196 {
        "\u{133}"@
    } else if index == 1197 {
        "\u{12B}"@
    } else if index == 1198 {
        "\u{2111}"@
    } else if index == 1199 {
        "\u{2110}"@
    } else if index == 1200 {
        "\u{2111}"@
    } else if index == 1201 {
        "\u{131}"@
    } else if index == 1202 {
        "\u{22B7}"@
    } else if index == 1203 {
        "\u{1B5}"@
    } else if index == 1204 {
        "\u{2208}"@
    } else if index == 1205 {
        "\u{2105}"@
    } else if index == 1206 {
        "\u{221E}"@
    } else if index == 1207 {
        "\u{29DD}"@
    } else if index == 1208 {
        "\u{131}"@
    } else if index == 1209 {
        "\u{222B}"@
    } else if index == 1210 {
        "\u{22BA}"@
    } else if index == 1211 {
        "\u{2124}"@
    } else if index == 1212 {
        "\u{22BA}"@
    } else if index == 1213 {
        "\u{2A17}"@
    } else if index == 1214 {
        "\u{2A3C}"@
    } else if index == 1215 {
        "\u{451}"@
    } else {
        Seq::empty()
    }
}

/// The name of the reference `index` and the characters that it stands for.
pub fn entry_1152(index: usize) -> (r: (&'static str, &'static str))
    ensures
        r.0@ == names_1152(index as int),
        r.1@ == texts_1152(index as int),
{
    proof {
        reveal(names_1152);
        reveal(texts_1152);
        reveal_strlit("");
    }
    match index {
        1152 => ("half;", "\u{BD}"),
        1153 => ("hamilt;", "\u{210B}"),
        1154 => ("hardcy;", "\u{44A}"),
        1155 => ("harr;", "\u{2194}"),
        1156 => ("harrcir;", "\u{2948}"),
        1157 => ("harrw;", "\u{21AD}"),
        1158 => ("hbar;", "\u{210F}"),
        1159 => ("hcirc;", "\u{125}"),
        1160 => ("hearts;", "\u{2665}"),
        1161 => ("heartsuit;", "\u{2665}"),
        1162 => ("hellip;", "\u{2026}"),
        1163 => ("hercon;", "\u{22B9}"),
        1164 => ("hfr;", "\u{1D525}"),
        1165 => ("hksearow;", "\u{2925}"),
        1166 => ("hkswarow;", "\u{2926}"),
        1167 => ("hoarr;", "\u{21FF}"),
        1168 => ("homtht;", "\u{223B}"),
        1169 => ("hookleftarrow;", "\u{21A9}"),
        1170 => ("hookrightarrow;", "\u{21AA}"),
        1171 => ("hopf;", "\u{1D559}"),
        1172 => ("horbar;", "\u{2015}"),
        1173 => ("hscr;", "\u{1D4BD}"),
        1174 => ("hslash;", "\u{210F}"),
        1175 => ("hstrok;", "\u{127}"),
        1176 => ("hybull;", "\u{2043}"),
        1177 => ("hyphen;", "\u{2010}"),
        1178 => ("iacute", "\u{ED}"),
        1179 => ("iacute;", "\u{ED}"),
        1180 => ("ic;", "\u{2063}"),
        1181 => ("icirc", "\u{EE}"),
        1182 => ("icirc;", "\u{EE}"),
        1183 => ("icy;", "\u{438}"),
        1184 => ("iecy;", "\u{435}"),
        1185 => ("iexcl", "\u{A1}"),
        1186 => ("iexcl;", "\u{A1}"),
        1187 => ("iff;", "\u{21D4}"),
        1188 => ("ifr;", "\u{1D526}"),
        1189 => ("igrave", "\u{EC}"),
        1190 => ("igrave;", "\u{EC}"),
        1191 => ("ii;", "\u{2148}"),
        1192 => ("iiiint;", "\u{2A0C}"),
        1193 => ("iiint;", "\u{222D}"),
        1194 => ("iinfin;", "\u{29DC}"),
        1195 => ("iiota;", "\u{2129}"),
        1196 => ("ijlig;", "\u{133}"),
        1197 => ("imacr;", "\u{12B}"),
        1198 => ("image;", "\u{2111}"),
        1199 => ("imagline;", "\u{2110}"),
        1200 => ("imagpart;", "\u{2111}"),
        1201 => ("imath;", "\u{131}"),
        1202 => ("imof;", "\u{22B7}"),
        1203 => ("imped;", "\u{1B5}"),
        1204 => ("in;", "\u{2208}"),
        1205 => ("incare;", "\u{2105}"),
        1206 => ("infin;", "\u{221E}"),
        1207 => ("infintie;", "\u{29DD}"),
        1208 => ("inodot;", "\u{131}"),
        1209 => ("int;", "\u{222B}"),
        1210 => ("intcal;", "\u{22BA}"),
        1211 => ("integers;", "\u{2124}"),
        1212 => ("intercal;", "\u{22BA}"),
        1213 => ("intlarhk;", "\u{2A17}"),
        1214 => ("intprod;", "\u{2A3C}"),
        1215 => ("iocy;", "\u{451}"),
        _ => ("", ""),
    }
}

/// The names of the references 1216 to 1279, from `&iogon;` to `&latail;`.
#[verifier::opaque]
pub open spec fn names_1216(index: int) -> Seq<char> {
    if index == 1216 {
        "iogon;"@
    } else if index == 1217 {
        "iopf;"@
    } else if index == 1218 {
        "iota;"@
    } else if index == 1219 {
        "iprod;"@
    } else if index == 1220 {
        "iquest"@
    } else if index == 1221 {
        "iquest;"@
    } else if index == 1222 {
        "iscr;"@
    } else if index == 1223 {
        "isin;"@
    } else if index == 1224 {
        "isinE;"@
    } else if index == 1225 {
        "isindot;"@
    } else if index == 1226 {
        "isins;"@
    } else if index == 1227 {
        "isinsv;"@
    } else if index == 1228 {
        "isinv;"@
    } else if index == 1229 {
        "it;"@
    } else if index == 1230 {
        "itilde;"@
    } else if index == 1231 {
        "iukcy;"@
    } else if index == 1232 {
        "iuml"@
    } else if index == 1233 {
        "iuml;"@
    } else if index == 1234 {
        "jcirc;"@
    } else if index == 1235 {
        "jcy;"@
    } else if index == 1236 {
        "jfr;"@
    } else if index == 1237 {
        "jmath;"@
    } else if index == 1238 {
        "jopf;"@
    } else if index == 1239 {
        "jscr;"@
    } else if index == 1240 {
        "jsercy;"@
    } else if index == 1241 {
        "jukcy;"@
    } else if index == 1242 {
        "kappa;"@
    } else if index == 1243 {
        "kappav;"@
    } else if index == 1244 {
        "kcedil;"@
    } else if index == 1245 {
        "kcy;"@
    } else if index == 1246 {
        "kfr;"@
    } else if index == 1247 {
        "kgreen;"@
    } else if index == 1248 {
        "khcy;"@
    } else if index == 1249 {
        "kjcy;"@
    } else if index == 1250 {
        "kopf;"@
    } else if index == 1251 {
        "kscr;"@
    } else if index == 1252 {
        "lAarr;"@
    } else if index == 1253 {
        "lArr;"@
    } else if index == 1254 {
        "lAtail;"@
    } else if index == 1255 {
        "lBarr;"@
    } else if index == 1256 {
        "lE;"@
    } else if index == 1257 {
        "lEg;"@
    } else if index == 1258 {
        "lHar;"@
    } else if index == 1259 {
        "lacute;"@
    } else if index == 1260 {
        "laemptyv;"@
    } else if index == 1261 {
        "lagran;"@
    } else if index == 1262 {
        "lambda;"@
    } else if index == 1263 {
        "lang;"@
    } else if index == 1264 {
        "langd;"@
    } else if index == 1265 {
        "langle;"@
    } else if index == 1266 {
        "lap;"@
    } else if index == 1267 {
        "laquo"@
    } else if index == 1268 {
        "laquo;"@
    } else if index == 1269 {
        "larr;"@
    } else if index == 1270 {
        "larrb;"@
    } else if index == 1271 {
        "larrbfs;"@
    } else if index == 1272 {
        "larrfs;"@
    } else if index == 1273 {
        "larrhk;"@
    } else if index == 1274 {
        "larrlp;"@
    } else if index == 1275 {
        "larrpl;"@
    } else if index == 1276 {
        "larrsim;"@
    } else if index == 1277 {
        "larrtl;"@
    } else if index == 1278 {
        "lat;"@
    } else if index == 1279 {
        "latail;"@
    } else {
        Seq::empty()
    }
}

/// The characters that the references 1216 to 1279 stand for.
#[verifier::opaque]
pub open spec fn texts_1216(index: int) -> Seq<char> {
    if index == 1216 {
        "\u{12F}"@
    } else if index == 1217 {
        "\u{1D55A}"@
    } else if index == 1218 {
        "\u{3B9}"@
    } else if index == 1219 {
        "\u{2A3C}"@
    } else if index == 1220 {
        "\u{BF}"@
    } else if index == 1221 {
        "\u{BF}"@
    } else if index == 1222 {
        "\u{1D4BE}"@
    } else if index == 1223 {
        "\u{2208}"@
    } else if index == 1224 {
        "\u{22F9}"@
    } else if index == 1225 {
        "\u{22F5}"@
    } else if index == 1226 {
        "\u{22F4}"@
    } else if index == 1227 {
        "\u{22F3}"@
    } else if index == 1228 {
        "\u{2208}"@
    } else if index == 1229 {
        "\u{2062}"@
    } else if index == 1230 {
        "\u{129}"@
    } else if index == 1231 {
        "\u{456}"@
    } else if index == 1232 {
        "\u{EF}"@
    } else if index == 1233 {
        "\u{EF}"@
    } else if index == 1234 {
        "\u{135}"@
    } else if index == 1235 {
        "\u{439}"@
    } else if index == 1236 {
        "\u{1D527}"@
    } else if index == 1237 {
        "\u{237}"@
    } else if index == 1238 {
        "\u{1D55B}"@
    } else if index == 1239 {
        "\u{1D4BF}"@
    } else if index == 1240 {
        "\u{458}"@
    } else if index == 1241 {
        "\u{454}"@
    } else if index == 1242 {
        "\u{3BA}"@
    } else if index == 1243 {
        "\u{3F0}"@
    } else if index == 1244 {
        "\u{137}"@
    } else if index == 1245 {
        "\u{43A}"@
    } else if index == 1246 {
        "\u{1D528}"@
    } else if index == 1247 {
        "\u{138}"@
    } else if index == 1248 {
        "\u{445}"@
    } else if index == 1249 {
        "\u{45C}"@
    } else if index == 1250 {
        "\u{1D55C}"@
    } else if index == 1251 {
        "\u{1D4C0}"@
    } else if index == 1252 {
        "\u{21DA}"@
    } else if index == 1253 {
        "\u{21D0}"@
    } else if index == 1254 {
        "\u{291B}"@
    } else if index == 1255 {
        "\u{290E}"@
    } else if index == 1256 {
        "\u{2266}"@
    } else if index == 1257 {
        "\u{2A8B}"@
    } else if index == 1258 {
        "\u{2962}"@
    } else if index == 1259 {
        "\u{13A}"@
    } else if index == 1260 {
        "\u{29B4}"@
    } else if index == 1261 {
        "\u{2112}"@
    } else if index == 1262 {
        "\u{3BB}"@
    } else if index == 1263 {
        "\u{27E8}"@
    } else if index == 1264 {
        "\u{2991}"@
    } else if index == 1265 {
        "\u{27E8}"@
    } else if index == 1266 {
        "\u{2A85}"@
    } else if index == 1267 {
        "\u{AB}"@
    } else if index == 1268 {
        "\u{AB}"@
    } else if index == 1269 {
        "\u{2190}"@
    } else if index == 1270 {
        "\u{21E4}"@
    } else if index == 1271 {
        "\u{291F}"@
    } else if index == 1272 {
        "\u{291D}"@
    } else if index == 1273 {
        "\u{21A9}"@
    } else if index == 1274 {
        "\u{21AB}"@
    } else if index == 1275 {
        "\u{2939}"@
    } else if index == 1276 {
        "\u{2973}"@
    } else if index == 1277 {
        "\u{21A2}"@
    } else if index == 1278 {
        "\u{2AAB}"@
    } else if index == 1279 {
        "\u{2919}"@
    } else {
        Seq::empty()
    }
}

/// The name of the reference `index` and the characters that it stands for.
pub fn entry_1216(index: usize) -> (r: (&'static str, &'static str))
    ensures
        r.0@ == names_1216(index as int),
        r.1@ == texts_1216(index as int),
{
    proof {
        reveal(names_1216);
        reveal(texts_1216);
        reveal_strlit("");
    }
    match index {
        1216 => ("iogon;", "\u{12F}"),
        1217 => ("iopf;", "\u{1D55A}"),
        1218 => ("iota;", "\u{3B9}"),
        1219 => ("iprod;", "\u{2A3C}"),
        1220 => ("iquest", "\u{BF}"),
        1221 => ("iquest;", "\u{BF}"),
        1222 => ("iscr;", "\u{1D4BE}"),
        1223 => ("isin;", "\u{2208}"),
        1224 => ("isinE;", "\u{22F9}"),
        1225 => ("isindot;", "\u{22F5}"),
        1226 => ("isins;", "\u{22F4}"),
        1227 => ("isinsv;", "\u{22F3}"),
        1228 => ("isinv;", "\u{2208}"),
        1229 => ("it;", "\u{2062}"),
        1230 => ("itilde;", "\u{129}"),
        1231 => ("iukcy;", "\u{456}"),
        1232 => ("iuml", "\u{EF}"),
        1233 => ("iuml;", "\u{EF}"),
        1234 => ("jcirc;", "\u{135}"),
        1235 => ("jcy;", "\u{439}"),
        1236 => ("jfr;", "\u{1D527}"),
        1237 => ("jmath;", "\u{237}"),
        1238 => ("jopf;", "\u{1D55B}"),
        1239 => ("jscr;", "\u{1D4BF}"),
        1240 => ("jsercy;", "\u{458}"),
        1241 => ("jukcy;", "\u{454}"),
        1242 => ("kappa;", "\u{3BA}"),
        1243 => ("kappav;", "\u{3F0}"),
        1244 => ("kcedil;", "\u{137}"),
        1245 => ("kcy;", "\u{43A}"),
        1246 => ("kfr;", "\u{1D528}"),
        1247 => ("kgreen;", "\u{138}"),
        1248 => ("khcy;", "\u{445}"),
        1249 => ("kjcy;", "\u{45C}"),
        1250 => ("kopf;", "\u{1D55C}"),
        1251 => ("kscr;", "\u{1D4C0}"),
        1252 => ("lAarr;", "\u{21DA}"),
        1253 => ("lArr;", "\u{21D0}"),
        1254 => ("lAtail;", "\u{291B}"),
        1255 => ("lBarr;", "\u{290E}"),
        1256 => ("lE;", "\u{2266}"),
        1257 => ("lEg;", "\u{2A8B}"),
        1258 => ("lHar;", "\u{2962}"),
        1259 => ("lacute;", "\u{13A}"),
        1260 => ("laemptyv;", "\u{29B4}"),
        1261 => ("lagran;", "\u{2112}"),
        1262 => ("lambda;", "\u{3BB}"),
        1263 => ("lang;", "\u{27E8}"),
        1264 => ("langd;", "\u{2991}"),
        1265 => ("langle;", "\u{27E8}"),
        1266 => ("lap;", "\u{2A85}"),
        1267 => ("laquo", "\u{AB}"),
        1268 => ("laquo;", "\u{AB}"),
        1269 => ("larr;", "\u{2190}"),
        1270 => ("larrb;", "\u{21E4}"),
        1271 => ("larrbfs;", "\u{291F}"),
        1272 => ("larrfs;", "\u{291D}"),
        1273 => ("larrhk;", "\u{21A9}"),
        1274 => ("larrlp;", "\u{21AB}"),
        1275 => ("larrpl;", "\u{2939}"),
        1276 => ("larrsim;", "\u{2973}"),
        1277 => ("larrtl;", "\u{21A2}"),
        1278 => ("lat;", "\u{2AAB}"),
        1279 => ("latail;", "\u{2919}"),
        _ => ("", ""),
    }
}

} // verus!
