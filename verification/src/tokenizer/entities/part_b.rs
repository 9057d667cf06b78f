use vstd::prelude::*;

verus! {

/// The names of the references 256 to 319, from `&LeftAngleBracket;` to `&NegativeMediumSpace;`.
#[verifier::opaque]
pub open spec fn names_256(index: int) -> Seq<char> {
    if index == 256 {
        "LeftAngleBracket;"@
    } else if index == 257 {
        "LeftArrow;"@
    } else if index == 258 {
        "LeftArrowBar;"@
    } else if index == 259 {
        "LeftArrowRightArrow;"@
    } else if index == 260 {
        "LeftCeiling;"@
    } else if index == 261 {
        "LeftDoubleBracket;"@
    } else if index == 262 {
        "LeftDownTeeVector;"@
    } else if index == 263 {
        "LeftDownVector;"@
    } else if index == 264 {
        "LeftDownVectorBar;"@
    } else if index == 265 {
        "LeftFloor;"@
    } else if index == 266 {
        "LeftRightArrow;"@
    } else if index == 267 {
        "LeftRightVector;"@
    } else if index == 268 {
        "LeftTee;"@
    } else if index == 269 {
        "LeftTeeArrow;"@
    } else if index == 270 {
        "LeftTeeVector;"@
    } else if index == 271 {
        "LeftTriangle;"@
    } else if index == 272 {
        "LeftTriangleBar;"@
    } else if index == 273 {
        "LeftTriangleEqual;"@
    } else if index == 274 {
        "LeftUpDownVector;"@
    } else if index == 275 {
        "LeftUpTeeVector;"@
    } else if index == 276 {
        "LeftUpVector;"@
    } else if index == 277 {
        "LeftUpVectorBar;"@
    } else if index == 278 {
        "LeftVector;"@
    } else if index == 279 {
        "LeftVectorBar;"@
    } else if index == 280 {
        "Leftarrow;"@
    } else if index == 281 {
        "Leftrightarrow;"@
    } else if index == 282 {
        "LessEqualGreater;"@
    } else if index == 283 {
        "LessFullEqual;"@
    } else if index == 284 {
        "LessGreater;"@
    } else if index == 285 {
        "LessLess;"@
    } else if index == 286 {
        "LessSlantEqual;"@
    } else if index == 287 {
        "LessTilde;"@
    } else if index == 288 {
        "Lfr;"@
    } else if index == 289 {
        "Ll;"@
    } else if index == 290 {
        "Lleftarrow;"@
    } else if index == 291 {
        "Lmidot;"@
    } else if index == 292 {
        "LongLeftArrow;"@
    } else if index == 293 {
        "LongLeftRightArrow;"@
    } else if index == 294 {
        "LongRightArrow;"@
    } else if index == 295 {
        "Longleftarrow;"@
    } else if index == 296 {
        "Longleftrightarrow;"@
    } else if index == 297 {
        "Longrightarrow;"@
    } else if index == 298 {
        "Lopf;"@
    } else if index == 299 {
        "LowerLeftArrow;"@
    } else if index == 300 {
        "LowerRightArrow;"@
    } else if index == 301 {
        "Lscr;"@
    } else if index == 302 {
        "Lsh;"@
    } else if index == 303 {
        "Lstrok;"@
    } else if index == 304 {
        "Lt;"@
    } else if index == 305 {
        "Map;"@
    } else if index == 306 {
        "Mcy;"@
    } else if index == 307 {
        "MediumSpace;"@
    } else if index == 308 {
        "Mellintrf;"@
    } else if index == 309 {
        "Mfr;"@
    } else if index == 310 {
        "MinusPlus;"@
    } else if index == 311 {
        "Mopf;"@
    } else if index == 312 {
        "Mscr;"@
    } else if index == 313 {
        "Mu;"@
    } else if index == 314 {
        "NJcy;"@
    } else if index == 315 {
        "Nacute;"@
    } else if index == 316 {
        "Ncaron;"@
    } else if index == 317 {
        "Ncedil;"@
    } else if index == 318 {
        "Ncy;"@
    } else if index == 319 {
        "NegativeMediumSpace;"@
    } else {
        Seq::empty()
    }
}

/// The characters that the references 256 to 319 stand for.
#[verifier::opaque]
pub open spec fn texts_256(index: int) -> Seq<char> {
    if index == 256 {
        "\u{27E8}"@
    } else if index == 257 {
        "\u{2190}"@
    } else if index == 258 {
        "\u{21E4}"@
    } else if index == 259 {
        "\u{21C6}"@
    } else if index == 260 {
        "\u{2308}"@
    } else if index == 261 {
        "\u{27E6}"@
    } else if index == 262 {
        "\u{2961}"@
    } else if index == 263 {
        "\u{21C3}"@
    } else if index == 264 {
        "\u{2959}"@
    } else if index == 265 {
        "\u{230A}"@
    } else if index == 266 {
        "\u{2194}"@
    } else if index == 267 {
        "\u{294E}"@
    } else if index == 268 {
        "\u{22A3}"@
    } else if index == 269 {
        "\u{21A4}"@
    } else if index == 270 {
        "\u{295A}"@
    } else if index == 271 {
        "\u{22B2}"@
    } else if index == 272 {
        "\u{29CF}"@
    } else if index == 273 {
        "\u{22B4}"@
    } else if index == 274 {
        "\u{2951}"@
    } else if index == 275 {
        "\u{2960}"@
    } else if index == 276 {
        "\u{21BF}"@
    } else if index == 277 {
        "\u{2958}"@
    } else if index == 278 {
        "\u{21BC}"@
    } else if index == 279 {
        "\u{2952}"@
    } else if index == 280 {
        "\u{21D0}"@
    } else if index == 281 {
        "\u{21D4}"@
    } else if index == 282 {
        "\u{22DA}"@
    } else if index == 283 {
        "\u{2266}"@
    } else if index == 284 {
        "\u{2276}"@
    } else if index == 285 {
        "\u{2AA1}"@
    } else if index == 286 {
        "\u{2A7D}"@
    } else if index == 287 {
        "\u{2272}"@
    } else if index == 288 {
        "\u{1D50F}"@
    } else if index == 289 {
        "\u{22D8}"@
    } else if index == 290 {
        "\u{21DA}"@
    } else if index == 291 {
        "\u{13F}"@
    } else if index == 292 {
        "\u{27F5}"@
    } else if index == 293 {
        "\u{27F7}"@
    } else if index == 294 {
        "\u{27F6}"@
    } else if index == 295 {
        "\u{27F8}"@
    } else if index == 296 {
        "\u{27FA}"@
    } else if index == 297 {
        "\u{27F9}"@
    } else if index == 298 {
        "\u{1D543}"@
    } else if index == 299 {
        "\u{2199}"@
    } else if index == 300 {
        "\u{2198}"@
    } else if index == 301 {
        "\u{2112}"@
    } else if index == 302 {
        "\u{21B0}"@
    } else if index == 303 {
        "\u{141}"@
    } else if index == 304 {
        "\u{226A}"@
    } else if index == 305 {
        "\u{2905}"@
    } else if index == 306 {
        "\u{41C}"@
    } else if index == 307 {
        "\u{205F}"@
    } else if index == 308 {
        "\u{2133}"@
    } else if index == 309 {
        "\u{1D510}"@
    } else if index == 310 {
        "\u{2213}"@
    } else if index == 311 {
        "\u{1D544}"@
    } else if index == 312 {
        "\u{2133}"@
    } else if index == 313 {
        "\u{39C}"@
    } else if index == 314 {
        "\u{40A}"@
    } else if index == 315 {
        "\u{143}"@
    } else if index == 316 {
        "\u{147}"@
    } else if index == 317 {
        "\u{145}"@
    } else if index == 318 {
        "\u{41D}"@
    } else if index == 319 {
        "\u{200B}"@
    } else {
        Seq::empty()
    }
}

/// The name of the reference `index` and the characters that it stands for.
pub fn entry_256(index: usize) -> (r: (&'static str, &'static str))
    ensures
        r.0@ == names_256(index as int),
        r.1@ == texts_256(index as int),
{
    proof {
        reveal(names_256);
        reveal(texts_256);
        reveal_strlit("");
    }
    match index {
        256 => ("LeftAngleBracket;", "\u{27E8}"),
        257 => ("LeftArrow;", "\u{2190}"),
        258 => ("LeftArrowBar;", "\u{21E4}"),
        259 => ("LeftArrowRightArrow;", "\u{21C6}"),
        260 => ("LeftCeiling;", "\u{2308}"),
        261 => ("LeftDoubleBracket;", "\u{27E6}"),
        262 => ("LeftDownTeeVector;", "\u{2961}"),
        263 => ("LeftDownVector;", "\u{21C3}"),
        264 => ("LeftDownVectorBar;", "\u{2959}"),
        265 => ("LeftFloor;", "\u{230A}"),
        266 => ("LeftRightArrow;", "\u{2194}"),
        267 => ("LeftRightVector;", "\u{294E}"),
        268 => ("LeftTee;", "\u{22A3}"),
        269 => ("LeftTeeArrow;", "\u{21A4}"),
        270 => ("LeftTeeVector;", "\u{295A}"),
        271 => ("LeftTriangle;", "\u{22B2}"),
        272 => ("LeftTriangleBar;", "\u{29CF}"),
        273 => ("LeftTriangleEqual;", "\u{22B4}"),
        274 => ("LeftUpDownVector;", "\u{2951}"),
        275 => ("LeftUpTeeVector;", "\u{2960}"),
        276 => ("LeftUpVector;", "\u{21BF}"),
        277 => ("LeftUpVectorBar;", "\u{2958}"),
        278 => ("LeftVector;", "\u{21BC}"),
        279 => ("LeftVectorBar;", "\u{2952}"),
        280 => ("Leftarrow;", "\u{21D0}"),
        281 => ("Leftrightarrow;", "\u{21D4}"),
        282 => ("LessEqualGreater;", "\u{22DA}"),
        283 => ("LessFullEqual;", "\u{2266}"),
        284 => ("LessGreater;", "\u{2276}"),
        285 => ("LessLess;", "\u{2AA1}"),
        286 => ("LessSlantEqual;", "\u{2A7D}"),
        287 => ("LessTilde;", "\u{2272}"),
        288 => ("Lfr;", "\u{1D50F}"),
        289 => ("Ll;", "\u{22D8}"),
        290 => ("Lleftarrow;", "\u{21DA}"),
        291 => ("Lmidot;", "\u{13F}"),
        292 => ("LongLeftArrow;", "\u{27F5}"),
        293 => ("LongLeftRightArrow;", "\u{27F7}"),
        294 => ("LongRightArrow;", "\u{27F6}"),
        295 => ("Longleftarrow;", "\u{27F8}"),
        296 => ("Longleftrightarrow;", "\u{27FA}"),
        297 => ("Longrightarrow;", "\u{27F9}"),
        298 => ("Lopf;", "\u{1D543}"),
        299 => ("LowerLeftArrow;", "\u{2199}"),
        300 => ("LowerRightArrow;", "\u{2198}"),
        301 => ("Lscr;", "\u{2112}"),
        302 => ("Lsh;", "\u{21B0}"),
        303 => ("Lstrok;", "\u{141}"),
        304 => ("Lt;", "\u{226A}"),
        305 => ("Map;", "\u{2905}"),
        306 => ("Mcy;", "\u{41C}"),
        307 => ("MediumSpace;", "\u{205F}"),
        308 => ("Mellintrf;", "\u{2133}"),
        309 => ("Mfr;", "\u{1D510}"),
        310 => ("MinusPlus;", "\u{2213}"),
        311 => ("Mopf;", "\u{1D544}"),
        312 => ("Mscr;", "\u{2133}"),
        313 => ("Mu;", "\u{39C}"),
        314 => ("NJcy;", "\u{40A}"),
        315 => ("Nacute;", "\u{143}"),
        316 => ("Ncaron;", "\u{147}"),
        317 => ("Ncedil;", "\u{145}"),
        318 => ("Ncy;", "\u{41D}"),
        319 => ("NegativeMediumSpace;", "\u{200B}"),
        _ => ("", ""),
    }
}

/// The names of the references 320 to 383, from `&NegativeThickSpace;` to `&Ntilde`.
#[verifier::opaque]
pub open spec fn names_320(index: int) -> Seq<char> {
    if index == 320 {
        "NegativeThickSpace;"@
    } else if index == 321 {
        "NegativeThinSpace;"@
    } else if index == 322 {
        "NegativeVeryThinSpace;"@
    } else if index == 323 {
        "NestedGreaterGreater;"@
    } else if index == 324 {
        "NestedLessLess;"@
    } else if index == 325 {
        "NewLine;"@
    } else if index == 326 {
        "Nfr;"@
    } else if index == 327 {
        "NoBreak;"@
    } else if index == 328 {
        "NonBreakingSpace;"@
    } else if index == 329 {
        "Nopf;"@
    } else if index == 330 {
        "Not;"@
    } else if index == 331 {
        "NotCongruent;"@
    } else if index == 332 {
        "NotCupCap;"@
    } else if index == 333 {
        "NotDoubleVerticalBar;"@
    } else if index == 334 {
        "NotElement;"@
    } else if index == 335 {
        "NotEqual;"@
    } else if index == 336 {
        "NotEqualTilde;"@
    } else if index == 337 {
        "NotExists;"@
    } else if index == 338 {
        "NotGreater;"@
    } else if index == 339 {
        "NotGreaterEqual;"@
    } else if index == 340 {
        "NotGreaterFullEqual;"@
    } else if index == 341 {
        "NotGreaterGreater;"@
    } else if index == 342 {
        "NotGreaterLess;"@
    } else if index == 343 {
        "NotGreaterSlantEqual;"@
    } else if index == 344 {
        "NotGreaterTilde;"@
    } else if index == 345 {
        "NotHumpDownHump;"@
    } else if index == 346 {
        "NotHumpEqual;"@
    } else if index == 347 {
        "NotLeftTriangle;"@
    } else if index == 348 {
        "NotLeftTriangleBar;"@
    } else if index == 349 {
        "NotLeftTriangleEqual;"@
    } else if index == 350 {
        "NotLess;"@
    } else if index == 351 {
        "NotLessEqual;"@
    } else if index == 352 {
        "NotLessGreater;"@
    } else if index == 353 {
        "NotLessLess;"@
    } else if index == 354 {
        "NotLessSlantEqual;"@
    } else if index == 355 {
        "NotLessTilde;"@
    } else if index == 356 {
        "NotNestedGreaterGreater;"@
    } else if index == 357 {
        "NotNestedLessLess;"@
    } else if index == 358 {
        "NotPrecedes;"@
    } else if index == 359 {
        "NotPrecedesEqual;"@
    } else if index == 360 {
        "NotPrecedesSlantEqual;"@
    } else if index == 361 {
        "NotReverseElement;"@
    } else if index == 362 {
        "NotRightTriangle;"@
    } else if index == 363 {
        "NotRightTriangleBar;"@
    } else if index == 364 {
        "NotRightTriangleEqual;"@
    } else if index == 365 {
        "NotSquareSubset;"@
    } else if index == 366 {
        "NotSquareSubsetEqual;"@
    } else if index == 367 {
        "NotSquareSuperset;"@
    } else if index == 368 {
        "NotSquareSupersetEqual;"@
    } else if index == 369 {
        "NotSubset;"@
    } else if index == 370 {
        "NotSubsetEqual;"@
    } else if index == 371 {
        "NotSucceeds;"@
    } else if index == 372 {
        "NotSucceedsEqual;"@
    } else if index == 373 {
        "NotSucceedsSlantEqual;"@
    } else if index == 374 {
        "NotSucceedsTilde;"@
    } else if index == 375 {
        "NotSuperset;"@
    } else if index == 376 {
        "NotSupersetEqual;"@
    } else if index == 377 {
        "NotTilde;"@
    } else if index == 378 {
        "NotTildeEqual;"@
    } else if index == 379 {
        "NotTildeFullEqual;"@
    } else if index == 380 {
        "NotTildeTilde;"@
    } else if index == 381 {
        "NotVerticalBar;"@
    } else if index == 382 {
        "Nscr;"@
    } else if index == 383 {
        "Ntilde"@
    } else {
        Seq::empty()
    }
}

/// The characters that the references 320 to 383 stand for.
#[verifier::opaque]
pub open spec fn texts_320(index: int) -> Seq<char> {
    if index == 320 {
        "\u{200B}"@
    } else if index == 321 {
        "\u{200B}"@
    } else if index == 322 {
        "\u{200B}"@
    } else if index == 323 {
        "\u{226B}"@
    } else if index == 324 {
        "\u{226A}"@
    } else if index == 325 {
        "\u{A}"@
    } else if index == 326 {
        "\u{1D511}"@
    } else if index == 327 {
        "\u{2060}"@
    } else if index == 328 {
        "\u{A0}"@
    } else if index == 329 {
        "\u{2115}"@
    } else if index == 330 {
        "\u{2AEC}"@
    } else if index == 331 {
        "\u{2262}"@
    } else if index == 332 {
        "\u{226D}"@
    } else if index == 333 {
        "\u{2226}"@
    } else if index == 334 {
        "\u{2209}"@
    } else if index == 335 {
        "\u{2260}"@
    } else if index == 336 {
        "\u{2242}\u{338}"@
    } else if index == 337 {
        "\u{2204}"@
    } else if index == 338 {
        "\u{226F}"@
    } else if index == 339 {
        "\u{2271}"@
    } else if index == 340 {
        "\u{2267}\u{338}"@
    } else if index == 341 {
        "\u{226B}\u{338}"@
    } else if index == 342 {
        "\u{2279}"@
    } else if index == 343 {
        "\u{2A7E}\u{338}"@
    } else if index == 344 {
        "\u{2275}"@
    } else if index == 345 {
        "\u{224E}\u{338}"@
    } else if index == 346 {
        "\u{224F}\u{338}"@
    } else if index == 347 {
        "\u{22EA}"@
    } else if index == 348 {
        "\u{29CF}\u{338}"@
    } else if index == 349 {
        "\u{22EC}"@
    } else if index == 350 {
        "\u{226E}"@
    } else if index == 351 {
        "\u{2270}"@
    } else if index == 352 {
        "\u{2278}"@
    } else if index == 353 {
        "\u{226A}\u{338}"@
    } else if index == 354 {
        "\u{2A7D}\u{338}"@
    } else if index == 355 {
        "\u{2274}"@
    } else if index == 356 {
        "\u{2AA2}\u{338}"@
    } else if index == 357 {
        "\u{2AA1}\u{338}"@
    } else if index == 358 {
        "\u{2280}"@
    } else if index == 359 {
        "\u{2AAF}\u{338}"@
    } else if index == 360 {
        "\u{22E0}"@
    } else if index == 361 {
        "\u{220C}"@
    } else if index == 362 {
        "\u{22EB}"@
    } else if index == 363 {
        "\u{29D0}\u{338}"@
    } else if index == 364 {
        "\u{22ED}"@
    } else if index == 365 {
        "\u{228F}\u{338}"@
    } else if index == 366 {
        "\u{22E2}"@
    } else if index == 367 {
        "\u{2290}\u{338}"@
    } else if index == 368 {
        "\u{22E3}"@
    } else if index == 369 {
        "\u{2282}\u{20D2}"@
    } else if index == 370 {
        "\u{2288}"@
    } else if index == 371 {
        "\u{2281}"@
    } else if index == 372 {
        "\u{2AB0}\u{338}"@
    } else if index == 373 {
        "\u{22E1}"@
    } else if index == 374 {
        "\u{227F}\u{338}"@
    } else if index == 375 {
        "\u{2283}\u{20D2}"@
    } else if index == 376 {
        "\u{2289}"@
    } else if index == 377 {
        "\u{2241}"@
    } else if index == 378 {
        "\u{2244}"@
    } else if index == 379 {
        "\u{2247}"@
    } else if index == 380 {
        "\u{2249}"@
    } else if index == 381 {
        "\u{2224}"@
    } else if index == 382 {
        "\u{1D4A9}"@
    } else if index == 383 {
        "\u{D1}"@
    } else {
        Seq::empty()
    }
}

/// The name of the reference `index` and the characters that it stands for.
pub fn entry_320(index: usize) -> (r: (&'static str, &'static str))
    ensures
        r.0@ == names_320(index as int),
        r.1@ == texts_320(index as int),
{
    proof {
        reveal(names_320);
        reveal(texts_320);
        reveal_strlit("");
    }
    match index {
        320 => ("NegativeThickSpace;", "\u{200B}"),
        321 => ("NegativeThinSpace;", "\u{200B}"),
        322 => ("NegativeVeryThinSpace;", "\u{200B}"),
        323 => ("NestedGreaterGreater;", "\u{226B}"),
        324 => ("NestedLessLess;", "\u{226A}"),
        325 => ("NewLine;", "\u{A}"),
        326 => ("Nfr;", "\u{1D511}"),
        327 => ("NoBreak;", "\u{2060}"),
        328 => ("NonBreakingSpace;", "\u{A0}"),
        329 => ("Nopf;", "\u{2115}"),
        330 => ("Not;", "\u{2AEC}"),
        331 => ("NotCongruent;", "\u{2262}"),
        332 => ("NotCupCap;", "\u{226D}"),
        333 => ("NotDoubleVerticalBar;", "\u{2226}"),
        334 => ("NotElement;", "\u{2209}"),
        335 => ("NotEqual;", "\u{2260}"),
        336 => ("NotEqualTilde;", "\u{2242}\u{338}"),
        337 => ("NotExists;", "\u{2204}"),
        338 => ("NotGreater;", "\u{226F}"),
        339 => ("NotGreaterEqual;", "\u{2271}"),
        340 => ("NotGreaterFullEqual;", "\u{2267}\u{338}"),
        341 => ("NotGreaterGreater;", "\u{226B}\u{338}"),
        342 => ("NotGreaterLess;", "\u{2279}"),
        343 => ("NotGreaterSlantEqual;", "\u{2A7E}\u{338}"),
        344 => ("NotGreaterTilde;", "\u{2275}"),
        345 => ("NotHumpDownHump;", "\u{224E}\u{338}"),
        346 => ("NotHumpEqual;", "\u{224F}\u{338}"),
        347 => ("NotLeftTriangle;", "\u{22EA}"),
        348 => ("NotLeftTriangleBar;", "\u{29CF}\u{338}"),
        349 => ("NotLeftTriangleEqual;", "\u{22EC}"),
        350 => ("NotLess;", "\u{226E}"),
        351 => ("NotLessEqual;", "\u{2270}"),
        352 => ("NotLessGreater;", "\u{2278}"),
        353 => ("NotLessLess;", "\u{226A}\u{338}"),
        354 => ("NotLessSlantEqual;", "\u{2A7D}\u{338}"),
        355 => ("NotLessTilde;", "\u{2274}"),
        356 => ("NotNestedGreaterGreater;", "\u{2AA2}\u{338}"),
        357 => ("NotNestedLessLess;", "\u{2AA1}\u{338}"),
        358 => ("NotPrecedes;", "\u{2280}"),
        359 => ("NotPrecedesEqual;", "\u{2AAF}\u{338}"),
        360 => ("NotPrecedesSlantEqual;", "\u{22E0}"),
        361 => ("NotReverseElement;", "\u{220C}"),
        362 => ("NotRightTriangle;", "\u{22EB}"),
        363 => ("NotRightTriangleBar;", "\u{29D0}\u{338}"),
        364 => ("NotRightTriangleEqual;", "\u{22ED}"),
        365 => ("NotSquareSubset;", "\u{228F}\u{338}"),
        366 => ("NotSquareSubsetEqual;", "\u{22E2}"),
        367 => ("NotSquareSuperset;", "\u{2290}\u{338}"),
        368 => ("NotSquareSupersetEqual;", "\u{22E3}"),
        369 => ("NotSubset;", "\u{2282}\u{20D2}"),
        370 => ("NotSubsetEqual;", "\u{2288}"),
        371 => ("NotSucceeds;", "\u{2281}"),
        372 => ("NotSucceedsEqual;", "\u{2AB0}\u{338}"),
        373 => ("NotSucceedsSlantEqual;", "\u{22E1}"),
        374 => ("NotSucceedsTilde;", "\u{227F}\u{338}"),
        375 => ("NotSuperset;", "\u{2283}\u{20D2}"),
        376 => ("NotSupersetEqual;", "\u{2289}"),
        377 => ("NotTilde;", "\u{2241}"),
        378 => ("NotTildeEqual;", "\u{2244}"),
        379 => ("NotTildeFullEqual;", "\u{2247}"),
        380 => ("NotTildeTilde;", "\u{2249}"),
        381 => ("NotVerticalBar;", "\u{2224}"),
        382 => ("Nscr;", "\u{1D4A9}"),
        383 => ("Ntilde", "\u{D1}"),
        _ => ("", ""),
    }
}

/// The names of the references 384 to 447, from `&Ntilde;` to `&Rcedil;`.
#[verifier::opaque]
pub open spec fn names_384(index: int) -> Seq<char> {
    if index == 384 {
        "Ntilde;"@
    } else if index == 385 {
        "Nu;"@
    } else if index == 386 {
        "OElig;"@
    } else if index == 387 {
        "Oacute"@
    } else if index == 388 {
        "Oacute;"@
    } else if index == 389 {
        "Ocirc"@
    } else if index == 390 {
        "Ocirc;"@
    } else if index == 391 {
        "Ocy;"@
    } else if index == 392 {
        "Odblac;"@
    } else if index == 393 {
        "Ofr;"@
    } else if index == 394 {
        "Ograve"@
    } else if index == 395 {
        "Ograve;"@
    } else if index == 396 {
        "Omacr;"@
    } else if index == 397 {
        "Omega;"@
    } else if index == 398 {
        "Omicron;"@
    } else if index == 399 {
        "Oopf;"@
    } else if index == 400 {
        "OpenCurlyDoubleQuote;"@
    } else if index == 401 {
        "OpenCurlyQuote;"@
    } else if index == 402 {
        "Or;"@
    } else if index == 403 {
        "Oscr;"@
    } else if index == 404 {
        "Oslash"@
    } else if index == 405 {
        "Oslash;"@
    } else if index == 406 {
        "Otilde"@
    } else if index == 407 {
        "Otilde;"@
    } else if index == 408 {
        "Otimes;"@
    } else if index == 409 {
        "Ouml"@
    } else if index == 410 {
        "Ouml;"@
    } else if index == 411 {
        "OverBar;"@
    } else if index == 412 {
        "OverBrace;"@
    } else if index == 413 {
        "OverBracket;"@
    } else if index == 414 {
        "OverParenthesis;"@
    } else if index == 415 {
        "PartialD;"@
    } else if index == 416 {
        "Pcy;"@
    } else if index == 417 {
        "Pfr;"@
    } else if index == 418 {
        "Phi;"@
    } else if index == 419 {
        "Pi;"@
    } else if index == 420 {
        "PlusMinus;"@
    } else if index == 421 {
        "Poincareplane;"@
    } else if index == 422 {
        "Popf;"@
    } else if index == 423 {
        "Pr;"@
    } else if index == 424 {
        "Precedes;"@
    } else if index == 425 {
        "PrecedesEqual;"@
    } else if index == 426 {
        "PrecedesSlantEqual;"@
    } else if index == 427 {
        "PrecedesTilde;"@
    } else if index == 428 {
        "Prime;"@
    } else if index == 429 {
        "Product;"@
    } else if index == 430 {
        "Proportion;"@
    } else if index == 431 {
        "Proportional;"@
    } else if index == 432 {
        "Pscr;"@
    } else if index == 433 {
        "Psi;"@
    } else if index == 434 {
        "QUOT"@
    } else if index == 435 {
        "QUOT;"@
    } else if index == 436 {
        "Qfr;"@
    } else if index == 437 {
        "Qopf;"@
    } else if index == 438 {
        "Qscr;"@
    } else if index == 439 {
        "RBarr;"@
    } else if index == 440 {
        "REG"@
    } else if index == 441 {
        "REG;"@
    } else if index == 442 {
        "Racute;"@
    } else if index == 443 {
        "Rang;"@
    } else if index == 444 {
        "Rarr;"@
    } else if index == 445 {
        "Rarrtl;"@
    } else if index == 446 {
        "Rcaron;"@
    } else if index == 447 {
        "Rcedil;"@
    } else {
        Seq::empty()
    }
}

/// The characters that the references 384 to 447 stand for.
#[verifier::opaque]
pub open spec fn texts_384(index: int) -> Seq<char> {
    if index == 384 {
        "\u{D1}"@
    } else if index == 385 {
        "\u{39D}"@
    } else if index == 386 {
        "\u{152}"@
    } else if index == 387 {
        "\u{D3}"@
    } else if index == 388 {
        "\u{D3}"@
    } else if index == 389 {
        "\u{D4}"@
    } else if index == 390 {
        "\u{D4}"@
    } else if index == 391 {
        "\u{41E}"@
    } else if index == 392 {
        "\u{150}"@
    } else if index == 393 {
        "\u{1D512}"@
    } else if index == 394 {
        "\u{D2}"@
    } else if index == 395 {
        "\u{D2}"@
    } else if index == 396 {
        "\u{14C}"@
    } else if index == 397 {
        "\u{3A9}"@
    } else if index == 398 {
        "\u{39F}"@
    } else if index == 399 {
        "\u{1D546}"@
    } else if index == 400 {
        "\u{201C}"@
    } else if index == 401 {
        "\u{2018}"@
    } else if index == 402 {
        "\u{2A54}"@
    } else if index == 403 {
        "\u{1D4AA}"@
    } else if index == 404 {
        "\u{D8}"@
    } else if index == 405 {
        "\u{D8}"@
    } else if index == 406 {
        "\u{D5}"@
    } else if index == 407 {
        "\u{D5}"@
    } else if index == 408 {
        "\u{2A37}"@
    } else if index == 409 {
        "\u{D6}"@
    } else if index == 410 {
        "\u{D6}"@
    } else if index == 411 {
        "\u{203E}"@
    } else if index == 412 {
        "\u{23DE}"@
    } else if index == 413 {
        "\u{23B4}"@
    } else if index == 414 {
        "\u{23DC}"@
    } else if index == 415 {
        "\u{2202}"@
    } else if index == 416 {
        "\u{41F}"@
    } else if index == 417 {
        "\u{1D513}"@
    } else if index == 418 {
        "\u{3A6}"@
    } else if index == 419 {
        "\u{3A0}"@
    } else if index == 420 {
        "\u{B1}"@
    } else if index == 421 {
        "\u{210C}"@
    } else if index == 422 {
        "\u{2119}"@
    } else if index == 423 {
        "\u{2ABB}"@
    } else if index == 424 {
        "\u{227A}"@
    } else if index == 425 {
        "\u{2AAF}"@
    } else if index == 426 {
        "\u{227C}"@
    } else if index == 427 {
        "\u{227E}"@
    } else if index == 428 {
        "\u{2033}"@
    } else if index == 429 {
        "\u{220F}"@
    } else if index == 430 {
        "\u{2237}"@
    } else if index == 431 {
        "\u{221D}"@
    } else if index == 432 {
        "\u{1D4AB}"@
    } else if index == 433 {
        "\u{3A8}"@
    } else if index == 434 {
        "\u{22}"@
    } else if index == 435 {
        "\u{22}"@
    } else if index == 436 {
        "\u{1D514}"@
    } else if index == 437 {
        "\u{211A}"@
    } else if index == 438 {
        "\u{1D4AC}"@
    } else if index == 439 {
        "\u{2910}"@
    } else if index == 440 {
        "\u{AE}"@
    } else if index == 441 {
        "\u{AE}"@
    } else if index == 442 {
        "\u{154}"@
    } else if index == 443 {
        "\u{27EB}"@
    } else if index == 444 {
        "\u{21A0}"@
    } else if index == 445 {
        "\u{2916}"@
    } else if index == 446 {
        "\u{158}"@
    } else if index == 447 {
        "\u{156}"@
    } else {
        Seq::empty()
    }
}

/// The name of the reference `index` and the characters that it stands for.
pub fn entry_384(index: usize) -> (r: (&'static str, &'static str))
    ensures
        r.0@ == names_384(index as int),
        r.1@ == texts_384(index as int),
{
    proof {
        reveal(names_384);
        reveal(texts_384);
        reveal_strlit("");
    }
    match index {
        384 => ("Ntilde;", "\u{D1}"),
        385 => ("Nu;", "\u{39D}"),
        386 => ("OElig;", "\u{152}"),
        387 => ("Oacute", "\u{D3}"),
        388 => ("Oacute;", "\u{D3}"),
        389 => ("Ocirc", "\u{D4}"),
        390 => ("Ocirc;", "\u{D4}"),
        391 => ("Ocy;", "\u{41E}"),
        392 => ("Odblac;", "\u{150}"),
        393 => ("Ofr;", "\u{1D512}"),
        394 => ("Ograve", "\u{D2}"),
        395 => ("Ograve;", "\u{D2}"),
        396 => ("Omacr;", "\u{14C}"),
        397 => ("Omega;", "\u{3A9}"),
        398 => ("Omicron;", "\u{39F}"),
        399 => ("Oopf;", "\u{1D546}"),
        400 => ("OpenCurlyDoubleQuote;", "\u{201C}"),
        401 => ("OpenCurlyQuote;", "\u{2018}"),
        402 => ("Or;", "\u{2A54}"),
        403 => ("Oscr;", "\u{1D4AA}"),
        404 => ("Oslash", "\u{D8}"),
        405 => ("Oslash;", "\u{D8}"),
        406 => ("Otilde", "\u{D5}"),
        407 => ("Otilde;", "\u{D5}"),
        408 => ("Otimes;", "\u{2A37}"),
        409 => ("Ouml", "\u{D6}"),
        410 => ("Ouml;", "\u{D6}"),
        411 => ("OverBar;", "\u{203E}"),
        412 => ("OverBrace;", "\u{23DE}"),
        413 => ("OverBracket;", "\u{23B4}"),
        414 => ("OverParenthesis;", "\u{23DC}"),
        415 => ("PartialD;", "\u{2202}"),
        416 => ("Pcy;", "\u{41F}"),
        417 => ("Pfr;", "\u{1D513}"),
        418 => ("Phi;", "\u{3A6}"),
        419 => ("Pi;", "\u{3A0}"),
        420 => ("PlusMinus;", "\u{B1}"),
        421 => ("Poincareplane;", "\u{210C}"),
        422 => ("Popf;", "\u{2119}"),
        423 => ("Pr;", "\u{2ABB}"),
        424 => ("Precedes;", "\u{227A}"),
        425 => ("PrecedesEqual;", "\u{2AAF}"),
        426 => ("PrecedesSlantEqual;", "\u{227C}"),
        427 => ("PrecedesTilde;", "\u{227E}"),
        428 => ("Prime;", "\u{2033}"),
        429 => ("Product;", "\u{220F}"),
        430 => ("Proportion;", "\u{2237}"),
        431 => ("Proportional;", "\u{221D}"),
        432 => ("Pscr;", "\u{1D4AB}"),
        433 => ("Psi;", "\u{3A8}"),
        434 => ("QUOT", "\u{22}"),
        435 => ("QUOT;", "\u{22}"),
        436 => ("Qfr;", "\u{1D514}"),
        437 => ("Qopf;", "\u{211A}"),
        438 => ("Qscr;", "\u{1D4AC}"),
        439 => ("RBarr;", "\u{2910}"),
        440 => ("REG", "\u{AE}"),
        441 => ("REG;", "\u{AE}"),
        442 => ("Racute;", "\u{154}"),
        443 => ("Rang;", "\u{27EB}"),
        444 => ("Rarr;", "\u{21A0}"),
        445 => ("Rarrtl;", "\u{2916}"),
        446 => ("Rcaron;", "\u{158}"),
        447 => ("Rcedil;", "\u{156}"),
        _ => ("", ""),
    }
}

/// The names of the references 448 to 511, from `&Rcy;` to `&Sub;`.
#[verifier::opaque]
pub open spec fn names_448(index: int) -> Seq<char> {
    if index == 448 {
        "Rcy;"@
    } else if index == 449 {
        "Re;"@
    } else if index == 450 {
        "ReverseElement;"@
    } else if index == 451 {
        "ReverseEquilibrium;"@
    } else if index == 452 {
        "ReverseUpEquilibrium;"@
    } else if index == 453 {
        "Rfr;"@
    } else if index == 454 {
        "Rho;"@
    } else if index == 455 {
        "RightAngleBracket;"@
    } else if index == 456 {
        "RightArrow;"@
    } else if index == 457 {
        "RightArrowBar;"@
    } else if index == 458 {
        "RightArrowLeftArrow;"@
    } else if index == 459 {
        "RightCeiling;"@
    } else if index == 460 {
        "RightDoubleBracket;"@
    } else if index == 461 {
        "RightDownTeeVector;"@
    } else if index == 462 {
        "RightDownVector;"@
    } else if index == 463 {
        "RightDownVectorBar;"@
    } else if index == 464 {
        "RightFloor;"@
    } else if index == 465 {
        "RightTee;"@
    } else if index == 466 {
        "RightTeeArrow;"@
    } else if index == 467 {
        "RightTeeVector;"@
    } else if index == 468 {
        "RightTriangle;"@
    } else if index == 469 {
        "RightTriangleBar;"@
    } else if index == 470 {
        "RightTriangleEqual;"@
    } else if index == 471 {
        "RightUpDownVector;"@
    } else if index == 472 {
        "RightUpTeeVector;"@
    } else if index == 473 {
        "RightUpVector;"@
    } else if index == 474 {
        "RightUpVectorBar;"@
    } else if index == 475 {
        "RightVector;"@
    } else if index == 476 {
        "RightVectorBar;"@
    } else if index == 477 {
        "Rightarrow;"@
    } else if index == 478 {
        "Ropf;"@
    } else if index == 479 {
        "RoundImplies;"@
    } else if index == 480 {
        "Rrightarrow;"@
    } else if index == 481 {
        "Rscr;"@
    } else if index == 482 {
        "Rsh;"@
    } else if index == 483 {
        "RuleDelayed;"@
    } else if index == 484 {
        "SHCHcy;"@
    } else if index == 485 {
        "SHcy;"@
    } else if index == 486 {
        "SOFTcy;"@
    } else if index == 487 {
        "Sacute;"@
    } else if index == 488 {
        "Sc;"@
    } else if index == 489 {
        "Scaron;"@
    } else if index == 490 {
        "Scedil;"@
    } else if index == 491 {
        "Scirc;"@
    } else if index == 492 {
        "Scy;"@
    } else if index == 493 {
        "Sfr;"@
    } else if index == 494 {
        "ShortDownArrow;"@
    } else if index == 495 {
        "ShortLeftArrow;"@
    } else if index == 496 {
        "ShortRightArrow;"@
    } else if index == 497 {
        "ShortUpArrow;"@
    } else if index == 498 {
        "Sigma;"@
    } else if index == 499 {
        "SmallCircle;"@
    } else if index == 500 {
        "Sopf;"@
    } else if index == 501 {
        "Sqrt;"@
    } else if index == 502 {
        "Square;"@
    } else if index == 503 {
        "SquareIntersection;"@
    } else if index == 504 {
        "SquareSubset;"@
    } else if index == 505 {
        "SquareSubsetEqual;"@
    } else if index == 506 {
        "SquareSuperset;"@
    } else if index == 507 {
        "SquareSupersetEqual;"@
    } else if index == 508 {
        "SquareUnion;"@
    } else if index == 509 {
        "Sscr;"@
    } else if index == 510 {
        "Star;"@
    } else if index == 511 {
        "Sub;"@
    } else {
        Seq::empty()
    }
}

/// The characters that the references 448 to 511 stand for.
#[verifier::opaque]
pub open spec fn texts_448(index: int) -> Seq<char> {
    if index == 448 {
        "\u{420}"@
    } else if index == 449 {
        "\u{211C}"@
    } else if index == 450 {
        "\u{220B}"@
    } else if index == 451 {
        "\u{21CB}"@
    } else if index == 452 {
        "\u{296F}"@
    } else if index == 453 {
        "\u{211C}"@
    } else if index == 454 {
        "\u{3A1}"@
    } else if index == 455 {
        "\u{27E9}"@
    } else if index == 456 {
        "\u{2192}"@
    } else if index == 457 {
        "\u{21E5}"@
    } else if index == 458 {
        "\u{21C4}"@
    } else if index == 459 {
        "\u{2309}"@
    } else if index == 460 {
        "\u{27E7}"@
    } else if index == 461 {
        "\u{295D}"@
    } else if index == 462 {
        "\u{21C2}"@
    } else if index == 463 {
        "\u{2955}"@
    } else if index == 464 {
        "\u{230B}"@
    } else if index == 465 {
        "\u{22A2}"@
    } else if index == 466 {
        "\u{21A6}"@
    } else if index == 467 {
        "\u{295B}"@
    } else if index == 468 {
        "\u{22B3}"@
    } else if index == 469 {
        "\u{29D0}"@
    } else if index == 470 {
        "\u{22B5}"@
    } else if index == 471 {
        "\u{294F}"@
    } else if index == 472 {
        "\u{295C}"@
    } else if index == 473 {
        "\u{21BE}"@
    } else if index == 474 {
        "\u{2954}"@
    } else if index == 475 {
        "\u{21C0}"@
    } else if index == 476 {
        "\u{2953}"@
    } else if index == 477 {
        "\u{21D2}"@
    } else if index == 478 {
        "\u{211D}"@
    } else if index == 479 {
        "\u{2970}"@
    } else if index == 480 {
        "\u{21DB}"@
    } else if index == 481 {
        "\u{211B}"@
    } else if index == 482 {
        "\u{21B1}"@
    } else if index == 483 {
        "\u{29F4}"@
    } else if index == 484 {
        "\u{429}"@
    } else if index == 485 {
        "\u{428}"@
    } else if index == 486 {
        "\u{42C}"@
    } else if index == 487 {
        "\u{15A}"@
    } else if index == 488 {
        "\u{2ABC}"@
    } else if index == 489 {
        "\u{160}"@
    } else if index == 490 {
        "\u{15E}"@
    } else if index == 491 {
        "\u{15C}"@
    } else if index == 492 {
        "\u{421}"@
    } else if index == 493 {
        "\u{1D516}"@
    } else if index == 494 {
        "\u{2193}"@
    } else if index == 495 {
        "\u{2190}"@
    } else if index == 496 {
        "\u{2192}"@
    } else if index == 497 {
        "\u{2191}"@
    } else if index == 498 {
        "\u{3A3}"@
    } else if index == 499 {
        "\u{2218}"@
    } else if index == 500 {
        "\u{1D54A}"@
    } else if index == 501 {
        "\u{221A}"@
    } else if index == 502 {
        "\u{25A1}"@
    } else if index == 503 {
        "\u{2293}"@
    } else if index == 504 {
        "\u{228F}"@
    } else if index == 505 {
        "\u{2291}"@
    } else if index == 506 {
        "\u{2290}"@
    } else if index == 507 {
        "\u{2292}"@
    } else if index == 508 {
        "\u{2294}"@
    } else if index == 509 {
        "\u{1D4AE}"@
    } else if index == 510 {
        "\u{22C6}"@
    } else if index == 511 {
        "\u{22D0}"@
    } else {
        Seq::empty()
    }
}

/// The name of the reference `index` and the characters that it stands for.
pub fn entry_448(index: usize) -> (r: (&'static str, &'static str))
    ensures
        r.0@ == names_448(index as int),
        r.1@ == texts_448(index as int),
{
    proof {
        reveal(names_448);
        reveal(texts_448);
        reveal_strlit("");
    }
    match index {
        448 => ("Rcy;", "\u{420}"),
        449 => ("Re;", "\u{211C}"),
        450 => ("ReverseElement;", "\u{220B}"),
        451 => ("ReverseEquilibrium;", "\u{21CB}"),
        452 => ("ReverseUpEquilibrium;", "\u{296F}"),
        453 => ("Rfr;", "\u{211C}"),
        454 => ("Rho;", "\u{3A1}"),
        455 => ("RightAngleBracket;", "\u{27E9}"),
        456 => ("RightArrow;", "\u{2192}"),
        457 => ("RightArrowBar;", "\u{21E5}"),
        458 => ("RightArrowLeftArrow;", "\u{21C4}"),
        459 => ("RightCeiling;", "\u{2309}"),
        460 => ("RightDoubleBracket;", "\u{27E7}"),
        461 => ("RightDownTeeVector;", "\u{295D}"),
        462 => ("RightDownVector;", "\u{21C2}"),
        463 => ("RightDownVectorBar;", "\u{2955}"),
        464 => ("RightFloor;", "\u{230B}"),
        465 => ("RightTee;", "\u{22A2}"),
        466 => ("RightTeeArrow;", "\u{21A6}"),
        467 => ("RightTeeVector;", "\u{295B}"),
        468 => ("RightTriangle;", "\u{22B3}"),
        469 => ("RightTriangleBar;", "\u{29D0}"),
        470 => ("RightTriangleEqual;", "\u{22B5}"),
        471 => ("RightUpDownVector;", "\u{294F}"),
        472 => ("RightUpTeeVector;", "\u{295C}"),
        473 => ("RightUpVector;", "\u{21BE}"),
        474 => ("RightUpVectorBar;", "\u{2954}"),
        475 => ("RightVector;", "\u{21C0}"),
        476 => ("RightVectorBar;", "\u{2953}"),
        477 => ("Rightarrow;", "\u{21D2}"),
        478 => ("Ropf;", "\u{211D}"),
        479 => ("RoundImplies;", "\u{2970}"),
        480 => ("Rrightarrow;", "\u{21DB}"),
        481 => ("Rscr;", "\u{211B}"),
        482 => ("Rsh;", "\u{21B1}"),
        483 => ("RuleDelayed;", "\u{29F4}"),
        484 => ("SHCHcy;", "\u{429}"),
        485 => ("SHcy;", "\u{428}"),
        486 => ("SOFTcy;", "\u{42C}"),
        487 => ("Sacute;", "\u{15A}"),
        488 => ("Sc;", "\u{2ABC}"),
        489 => ("Scaron;", "\u{160}"),
        490 => ("Scedil;", "\u{15E}"),
        491 => ("Scirc;", "\u{15C}"),
        492 => ("Scy;", "\u{421}"),
        493 => ("Sfr;", "\u{1D516}"),
        494 => ("ShortDownArrow;", "\u{2193}"),
        495 => ("ShortLeftArrow;", "\u{2190}"),
        496 => ("ShortRightArrow;", "\u{2192}"),
        497 => ("ShortUpArrow;", "\u{2191}"),
        498 => ("Sigma;", "\u{3A3}"),
        499 => ("SmallCircle;", "\u{2218}"),
        500 => ("Sopf;", "\u{1D54A}"),
        501 => ("Sqrt;", "\u{221A}"),
        502 => ("Square;", "\u{25A1}"),
        503 => ("SquareIntersection;", "\u{2293}"),
        504 => ("SquareSubset;", "\u{228F}"),
        505 => ("SquareSubsetEqual;", "\u{2291}"),
        506 => ("SquareSuperset;", "\u{2290}"),
        507 => ("SquareSupersetEqual;", "\u{2292}"),
        508 => ("SquareUnion;", "\u{2294}"),
        509 => ("Sscr;", "\u{1D4AE}"),
        510 => ("Star;", "\u{22C6}"),
        511 => ("Sub;", "\u{22D0}"),
        _ => ("", ""),
    }
}

} // verus!
