use vstd::prelude::*;

verus! {

/// The names of the references 512 to 575, from `&Subset;` to `&UpTeeArrow;`.
#[verifier::opaque]
pub open spec fn names_512(index: int) -> Seq<char> {
    if index == 512 {
        "Subset;"@
    } else if index == 513 {
        "SubsetEqual;"@
    } else if index == 514 {
        "Succeeds;"@
    } else if index == 515 {
        "SucceedsEqual;"@
    } else if index == 516 {
        "SucceedsSlantEqual;"@
    } else if index == 517 {
        "SucceedsTilde;"@
    } else if index == 518 {
        "SuchThat;"@
    } else if index == 519 {
        "Sum;"@
    } else if index == 520 {
        "Sup;"@
    } else if index == 521 {
        "Superset;"@
    } else if index == 522 {
        "SupersetEqual;"@
    } else if index == 523 {
        "Supset;"@
    } else if index == 524 {
        "THORN"@
    } else if index == 525 {
        "THORN;"@
    } else if index == 526 {
        "TRADE;"@
    } else if index == 527 {
        "TSHcy;"@
    } else if index == 528 {
        "TScy;"@
    } else if index == 529 {
        "Tab;"@
    } else if index == 530 {
        "Tau;"@
    } else if index == 531 {
        "Tcaron;"@
    } else if index == 532 {
        "Tcedil;"@
    } else if index == 533 {
        "Tcy;"@
    } else if index == 534 {
        "Tfr;"@
    } else if index == 535 {
        "Therefore;"@
    } else if index == 536 {
        "Theta;"@
    } else if index == 537 {
        "ThickSpace;"@
    } else if index == 538 {
        "ThinSpace;"@
    } else if index == 539 {
        "Tilde;"@
    } else if index == 540 {
        "TildeEqual;"@
    } else if index == 541 {
        "TildeFullEqual;"@
    } else if index == 542 {
        "TildeTilde;"@
    } else if index == 543 {
        "Topf;"@
    } else if index == 544 {
        "TripleDot;"@
    } else if index == 545 {
        "Tscr;"@
    } else if index == 546 {
        "Tstrok;"@
    } else if index == 547 {
        "Uacute"@
    } else if index == 548 {
        "Uacute;"@
    } else if index == 549 {
        "Uarr;"@
    } else if index == 550 {
        "Uarrocir;"@
    } else if index == 551 {
        "Ubrcy;"@
    } else if index == 552 {
        "Ubreve;"@
    } else if index == 553 {
        "Ucirc"@
    } else if index == 554 {
        "Ucirc;"@
    } else if index == 555 {
        "Ucy;"@
    } else if index == 556 {
        "Udblac;"@
    } else if index == 557 {
        "Ufr;"@
    } else if index == 558 {
        "Ugrave"@
    } else if index == 559 {
        "Ugrave;"@
    } else if index == 560 {
        "Umacr;"@
    } else if index == 561 {
        "UnderBar;"@
    } else if index == 562 {
        "UnderBrace;"@
    } else if index == 563 {
        "UnderBracket;"@
    } else if index == 564 {
        "UnderParenthesis;"@
    } else if index == 565 {
        "Union;"@
    } else if index == 566 {
        "UnionPlus;"@
    } else if index == 567 {
        "Uogon;"@
    } else if index == 568 {
        "Uopf;"@
    } else if index == 569 {
        "UpArrow;"@
    } else if index == 570 {
        "UpArrowBar;"@
    } else if index == 571 {
        "UpArrowDownArrow;"@
    } else if index == 572 {
        "UpDownArrow;"@
    } else if index == 573 {
        "UpEquilibrium;"@
    } else if index == 574 {
        "UpTee;"@
    } else if index == 575 {
        "UpTeeArrow;"@
    } else {
        Seq::empty()
    }
}

/// The characters that the references 512 to 575 stand for.
#[verifier::opaque]
pub open spec fn texts_512(index: int) -> Seq<char> {
    if index == 512 {
        "\u{22D0}"@
    } else if index == 513 {
        "\u{2286}"@
    } else if index == 514 {
        "\u{227B}"@
    } else if index == 515 {
        "\u{2AB0}"@
    } else if index == 516 {
        "\u{227D}"@
    } else if index == 517 {
        "\u{227F}"@
    } else if index == 518 {
        "\u{220B}"@
    } else if index == 519 {
        "\u{2211}"@
    } else if index == 520 {
        "\u{22D1}"@
    } else if index == 521 {
        "\u{2283}"@
    } else if index == 522 {
        "\u{2287}"@
    } else if index == 523 {
        "\u{22D1}"@
    } else if index == 524 {
        "\u{DE}"@
    } else if index == 525 {
        "\u{DE}"@
    } else if index == 526 {
        "\u{2122}"@
    } else if index == 527 {
        "\u{40B}"@
    } else if index == 528 {
        "\u{426}"@
    } else if index == 529 {
        "\u{9}"@
    } else if index == 530 {
        "\u{3A4}"@
    } else if index == 531 {
        "\u{164}"@
    } else if index == 532 {
        "\u{162}"@
    } else if index == 533 {
        "\u{422}"@
    } else if index == 534 {
        "\u{1D517}"@
    } else if index == 535 {
        "\u{2234}"@
    } else if index == 536 {
        "\u{398}"@
    } else if index == 537 {
        "\u{205F}\u{200A}"@
    } else if index == 538 {
        "\u{2009}"@
    } else if index == 539 {
        "\u{223C}"@
    } else if index == 540 {
        "\u{2243}"@
    } else if index == 541 {
        "\u{2245}"@
    } else if index == 542 {
        "\u{2248}"@
    } else if index == 543 {
        "\u{1D54B}"@
    } else if index == 544 {
        "\u{20DB}"@
    } else if index == 545 {
        "\u{1D4AF}"@
    } else if index == 546 {
        "\u{166}"@
    } else if index == 547 {
        "\u{DA}"@
    } else if index == 548 {
        "\u{DA}"@
    } else if index == 549 {
        "\u{219F}"@
    } else if index == 550 {
        "\u{2949}"@
    } else if index == 551 {
        "\u{40E}"@
    } else if index == 552 {
        "\u{16C}"@
    } else if index == 553 {
        "\u{DB}"@
    } else if index == 554 {
        "\u{DB}"@
    } else if index == 555 {
        "\u{423}"@
    } else if index == 556 {
        "\u{170}"@
    } else if index == 557 {
        "\u{1D518}"@
    } else if index == 558 {
        "\u{D9}"@
    } else if index == 559 {
        "\u{D9}"@
    } else if index == 560 {
        "\u{16A}"@
    } else if index == 561 {
        "\u{5F}"@
    } else if index == 562 {
        "\u{23DF}"@
    } else if index == 563 {
        "\u{23B5}"@
    } else if index == 564 {
        "\u{23DD}"@
    } else if index == 565 {
        "\u{22C3}"@
    } else if index == 566 {
        "\u{228E}"@
    } else if index == 567 {
        "\u{172}"@
    } else if index == 568 {
        "\u{1D54C}"@
    } else if index == 569 {
        "\u{2191}"@
    } else if index == 570 {
        "\u{2912}"@
    } else if index == 571 {
        "\u{21C5}"@
    } else if index == 572 {
        "\u{2195}"@
    } else if index == 573 {
        "\u{296E}"@
    } else if index == 574 {
        "\u{22A5}"@
    } else if index == 575 {
        "\u{21A5}"@
    } else {
        Seq::empty()
    }
}

/// The name of the reference `index` and the characters that it stands for.
pub fn entry_512(index: usize) -> (r: (&'static str, &'static str))
    ensures
        r.0@ == names_512(index as int),
        r.1@ == texts_512(index as int),
{
    proof {
        reveal(names_512);
        reveal(texts_512);
        reveal_strlit("");
    }
    match index {
        512 => ("Subset;", "\u{22D0}"),
        513 => ("SubsetEqual;", "\u{2286}"),
        514 => ("Succeeds;", "\u{227B}"),
        515 => ("SucceedsEqual;", "\u{2AB0}"),
        516 => ("SucceedsSlantEqual;", "\u{227D}"),
        517 => ("SucceedsTilde;", "\u{227F}"),
        518 => ("SuchThat;", "\u{220B}"),
        519 => ("Sum;", "\u{2211}"),
        520 => ("Sup;", "\u{22D1}"),
        521 => ("Superset;", "\u{2283}"),
        522 => ("SupersetEqual;", "\u{2287}"),
        523 => ("Supset;", "\u{22D1}"),
        524 => ("THORN", "\u{DE}"),
        525 => ("THORN;", "\u{DE}"),
        526 => ("TRADE;", "\u{2122}"),
        527 => ("TSHcy;", "\u{40B}"),
        528 => ("TScy;", "\u{426}"),
        529 => ("Tab;", "\u{9}"),
        530 => ("Tau;", "\u{3A4}"),
        531 => ("Tcaron;", "\u{164}"),
        532 => ("Tcedil;", "\u{162}"),
        533 => ("Tcy;", "\u{422}"),
        534 => ("Tfr;", "\u{1D517}"),
        535 => ("Therefore;", "\u{2234}"),
        536 => ("Theta;", "\u{398}"),
        537 => ("ThickSpace;", "\u{205F}\u{200A}"),
        538 => ("ThinSpace;", "\u{2009}"),
        539 => ("Tilde;", "\u{223C}"),
        540 => ("TildeEqual;", "\u{2243}"),
        541 => ("TildeFullEqual;", "\u{2245}"),
        542 => ("TildeTilde;", "\u{2248}"),
        543 => ("Topf;", "\u{1D54B}"),
        544 => ("TripleDot;", "\u{20DB}"),
        545 => ("Tscr;", "\u{1D4AF}"),
        546 => ("Tstrok;", "\u{166}"),
        547 => ("Uacute", "\u{DA}"),
        548 => ("Uacute;", "\u{DA}"),
        549 => ("Uarr;", "\u{219F}"),
        550 => ("Uarrocir;", "\u{2949}"),
        551 => ("Ubrcy;", "\u{40E}"),
        552 => ("Ubreve;", "\u{16C}"),
        553 => ("Ucirc", "\u{DB}"),
        554 => ("Ucirc;", "\u{DB}"),
        555 => ("Ucy;", "\u{423}"),
        556 => ("Udblac;", "\u{170}"),
        557 => ("Ufr;", "\u{1D518}"),
        558 => ("Ugrave", "\u{D9}"),
        559 => ("Ugrave;", "\u{D9}"),
        560 => ("Umacr;", "\u{16A}"),
        561 => ("UnderBar;", "\u{5F}"),
        562 => ("UnderBrace;", "\u{23DF}"),
        563 => ("UnderBracket;", "\u{23B5}"),
        564 => ("UnderParenthesis;", "\u{23DD}"),
        565 => ("Union;", "\u{22C3}"),
        566 => ("UnionPlus;", "\u{228E}"),
        567 => ("Uogon;", "\u{172}"),
        568 => ("Uopf;", "\u{1D54C}"),
        569 => ("UpArrow;", "\u{2191}"),
        570 => ("UpArrowBar;", "\u{2912}"),
        571 => ("UpArrowDownArrow;", "\u{21C5}"),
        572 => ("UpDownArrow;", "\u{2195}"),
        573 => ("UpEquilibrium;", "\u{296E}"),
        574 => ("UpTee;", "\u{22A5}"),
        575 => ("UpTeeArrow;", "\u{21A5}"),
        _ => ("", ""),
    }
}

/// The names of the references 576 to 639, from `&Uparrow;` to `&acd;`.
#[verifier::opaque]
pub open spec fn names_576(index: int) -> Seq<char> {
    if index == 576 {
        "Uparrow;"@
    } else if index == 577 {
        "Updownarrow;"@
    } else if index == 578 {
        "UpperLeftArrow;"@
    } else if index == 579 {
        "UpperRightArrow;"@
    } else if index == 580 {
        "Upsi;"@
    } else if index == 581 {
        "Upsilon;"@
    } else if index == 582 {
        "Uring;"@
    } else if index == 583 {
        "Uscr;"@
    } else if index == 584 {
        "Utilde;"@
    } else if index == 585 {
        "Uuml"@
    } else if index == 586 {
        "Uuml;"@
    } else if index == 587 {
        "VDash;"@
    } else if index == 588 {
        "Vbar;"@
    } else if index == 589 {
        "Vcy;"@
    } else if index == 590 {
        "Vdash;"@
    } else if index == 591 {
        "Vdashl;"@
    } else if index == 592 {
        "Vee;"@
    } else if index == 593 {
        "Verbar;"@
    } else if index == 594 {
        "Vert;"@
    } else if index == 595 {
        "VerticalBar;"@
    } else if index == 596 {
        "VerticalLine;"@
    } else if index == 597 {
        "VerticalSeparator;"@
    } else if index == 598 {
        "VerticalTilde;"@
    } else if index == 599 {
        "VeryThinSpace;"@
    } else if index == 600 {
        "Vfr;"@
    } else if index == 601 {
        "Vopf;"@
    } else if index == 602 {
        "Vscr;"@
    } else if index == 603 {
        "Vvdash;"@
    } else if index == 604 {
        "Wcirc;"@
    } else if index == 605 {
        "Wedge;"@
    } else if index == 606 {
        "Wfr;"@
    } else if index == 607 {
        "Wopf;"@
    } else if index == 608 {
        "Wscr;"@
    } else if index == 609 {
        "Xfr;"@
    } else if index == 610 {
        "Xi;"@
    } else if index == 611 {
        "Xopf;"@
    } else if index == 612 {
        "Xscr;"@
    } else if index == 613 {
        "YAcy;"@
    } else if index == 614 {
        "YIcy;"@
    } else if index == 615 {
        "YUcy;"@
    } else if index == 616 {
        "Yacute"@
    } else if index == 617 {
        "Yacute;"@
    } else if index == 618 {
        "Ycirc;"@
    } else if index == 619 {
        "Ycy;"@
    } else if index == 620 {
        "Yfr;"@
    } else if index == 621 {
        "Yopf;"@
    } else if index == 622 {
        "Yscr;"@
    } else if index == 623 {
        "Yuml;"@
    } else if index == 624 {
        "ZHcy;"@
    } else if index == 625 {
        "Zacute;"@
    } else if index == 626 {
        "Zcaron;"@
    } else if index == 627 {
        "Zcy;"@
    } else if index == 628 {
        "Zdot;"@
    } else if index == 629 {
        "ZeroWidthSpace;"@
    } else if index == 630 {
        "Zeta;"@
    } else if index == 631 {
        "Zfr;"@
    } else if index == 632 {
        "Zopf;"@
    } else if index == 633 {
        "Zscr;"@
    } else if index == 634 {
        "aacute"@
    } else if index == 635 {
        "aacute;"@
    } else if index == 636 {
        "abreve;"@
    } else if index == 637 {
        "ac;"@
    } else if index == 638 {
        "acE;"@
    } else if index == 639 {
        "acd;"@
    } else {
        Seq::empty()
    }
}

/// The characters that the references 576 to 639 stand for.
#[verifier::opaque]
pub open spec fn texts_576(index: int) -> Seq<char> {
    if index == 576 {
        "\u{21D1}"@
    } else if index == 577 {
        "\u{21D5}"@
    } else if index == 578 {
        "\u{2196}"@
    } else if index == 579 {
        "\u{2197}"@
    } else if index == 580 {
        "\u{3D2}"@
    } else if index == 581 {
        "\u{3A5}"@
    } else if index == 582 {
        "\u{16E}"@
    } else if index == 583 {
        "\u{1D4B0}"@
    } else if index == 584 {
        "\u{168}"@
    } else if index == 585 {
        "\u{DC}"@
    } else if index == 586 {
        "\u{DC}"@
    } else if index == 587 {
        "\u{22AB}"@
    } else if index == 588 {
        "\u{2AEB}"@
    } else if index == 589 {
        "\u{412}"@
    } else if index == 590 {
        "\u{22A9}"@
    } else if index == 591 {
        "\u{2AE6}"@
    } else if index == 592 {
        "\u{22C1}"@
    } else if index == 593 {
        "\u{2016}"@
    } else if index == 594 {
        "\u{2016}"@
    } else if index == 595 {
        "\u{2223}"@
    } else if index == 596 {
        "\u{7C}"@
    } else if index == 597 {
        "\u{2758}"@
    } else if index == 598 {
        "\u{2240}"@
    } else if index == 599 {
        "\u{200A}"@
    } else if index == 600 {
        "\u{1D519}"@
    } else if index == 601 {
        "\u{1D54D}"@
    } else if index == 602 {
        "\u{1D4B1}"@
    } else if index == 603 {
        "\u{22AA}"@
    } else if index == 604 {
        "\u{174}"@
    } else if index == 605 {
        "\u{22C0}"@
    } else if index == 606 {
        "\u{1D51A}"@
    } else if index == 607 {
        "\u{1D54E}"@
    } else if index == 608 {
        "\u{1D4B2}"@
    } else if index == 609 {
        "\u{1D51B}"@
    } else if index == 610 {
        "\u{39E}"@
    } else if index == 611 {
        "\u{1D54F}"@
    } else if index == 612 {
        "\u{1D4B3}"@
    } else if index == 613 {
        "\u{42F}"@
    } else if index == 614 {
        "\u{407}"@
    } else if index == 615 {
        "\u{42E}"@
    } else if index == 616 {
        "\u{DD}"@
    } else if index == 617 {
        "\u{DD}"@
    } else if index == 618 {
        "\u{176}"@
    } else if index == 619 {
        "\u{42B}"@
    } else if index == 620 {
        "\u{1D51C}"@
    } else if index == 621 {
        "\u{1D550}"@
    } else if index == 622 {
        "\u{1D4B4}"@
    } else if index == 623 {
        "\u{178}"@
    } else if index == 624 {
        "\u{416}"@
    } else if index == 625 {
        "\u{179}"@
    } else if index == 626 {
        "\u{17D}"@
    } else if index == 627 {
        "\u{417}"@
    } else if index == 628 {
        "\u{17B}"@
    } else if index == 629 {
        "\u{200B}"@
    } else if index == 630 {
        "\u{396}"@
    } else if index == 631 {
        "\u{2128}"@
    } else if index == 632 {
        "\u{2124}"@
    } else if index == 633 {
        "\u{1D4B5}"@
    } else if index == 634 {
        "\u{E1}"@
    } else if index == 635 {
        "\u{E1}"@
    } else if index == 636 {
        "\u{103}"@
    } else if index == 637 {
        "\u{223E}"@
    } else if index == 638 {
        "\u{223E}\u{333}"@
    } else if index == 639 {
        "\u{223F}"@
    } else {
        Seq::empty()
    }
}

/// The name of the reference `index` and the characters that it stands for.
pub fn entry_576(index: usize) -> (r: (&'static str, &'static str))
    ensures
        r.0@ == names_576(index as int),
        r.1@ == texts_576(index as int),
{
    proof {
        reveal(names_576);
        reveal(texts_576);
        reveal_strlit("");
    }
    match index {
        576 => ("Uparrow;", "\u{21D1}"),
        577 => ("Updownarrow;", "\u{21D5}"),
        578 => ("UpperLeftArrow;", "\u{2196}"),
        579 => ("UpperRightArrow;", "\u{2197}"),
        580 => ("Upsi;", "\u{3D2}"),
        581 => ("Upsilon;", "\u{3A5}"),
        582 => ("Uring;", "\u{16E}"),
        583 => ("Uscr;", "\u{1D4B0}"),
        584 => ("Utilde;", "\u{168}"),
        585 => ("Uuml", "\u{DC}"),
        586 => ("Uuml;", "\u{DC}"),
        587 => ("VDash;", "\u{22AB}"),
        588 => ("Vbar;", "\u{2AEB}"),
        589 => ("Vcy;", "\u{412}"),
        590 => ("Vdash;", "\u{22A9}"),
        591 => ("Vdashl;", "\u{2AE6}"),
        592 => ("Vee;", "\u{22C1}"),
        593 => ("Verbar;", "\u{2016}"),
        594 => ("Vert;", "\u{2016}"),
        595 => ("VerticalBar;", "\u{2223}"),
        596 => ("VerticalLine;", "\u{7C}"),
        597 => ("VerticalSeparator;", "\u{2758}"),
        598 => ("VerticalTilde;", "\u{2240}"),
        599 => ("VeryThinSpace;", "\u{200A}"),
        600 => ("Vfr;", "\u{1D519}"),
        601 => ("Vopf;", "\u{1D54D}"),
        602 => ("Vscr;", "\u{1D4B1}"),
        603 => ("Vvdash;", "\u{22AA}"),
        604 => ("Wcirc;", "\u{174}"),
        605 => ("Wedge;", "\u{22C0}"),
        606 => ("Wfr;", "\u{1D51A}"),
        607 => ("Wopf;", "\u{1D54E}"),
        608 => ("Wscr;", "\u{1D4B2}"),
        609 => ("Xfr;", "\u{1D51B}"),
        610 => ("Xi;", "\u{39E}"),
        611 => ("Xopf;", "\u{1D54F}"),
        612 => ("Xscr;", "\u{1D4B3}"),
        613 => ("YAcy;", "\u{42F}"),
        614 => ("YIcy;", "\u{407}"),
        615 => ("YUcy;", "\u{42E}"),
        616 => ("Yacute", "\u{DD}"),
        617 => ("Yacute;", "\u{DD}"),
        618 => ("Ycirc;", "\u{176}"),
        619 => ("Ycy;", "\u{42B}"),
        620 => ("Yfr;", "\u{1D51C}"),
        621 => ("Yopf;", "\u{1D550}"),
        622 => ("Yscr;", "\u{1D4B4}"),
        623 => ("Yuml;", "\u{178}"),
        624 => ("ZHcy;", "\u{416}"),
        625 => ("Zacute;", "\u{179}"),
        626 => ("Zcaron;", "\u{17D}"),
        627 => ("Zcy;", "\u{417}"),
        628 => ("Zdot;", "\u{17B}"),
        629 => ("ZeroWidthSpace;", "\u{200B}"),
        630 => ("Zeta;", "\u{396}"),
        631 => ("Zfr;", "\u{2128}"),
        632 => ("Zopf;", "\u{2124}"),
        633 => ("Zscr;", "\u{1D4B5}"),
        634 => ("aacute", "\u{E1}"),
        635 => ("aacute;", "\u{E1}"),
        636 => ("abreve;", "\u{103}"),
        637 => ("ac;", "\u{223E}"),
        638 => ("acE;", "\u{223E}\u{333}"),
        639 => ("acd;", "\u{223F}"),
        _ => ("", ""),
    }
}

/// The names of the references 640 to 703, from `&acirc` to `&bNot;`.
#[verifier::opaque]
pub open spec fn names_640(index: int) -> Seq<char> {
    if index == 640 {
        "acirc"@
    } else if index == 641 {
        "acirc;"@
    } else if index == 642 {
        "acute"@
    } else if index == 643 {
        "acute;"@
    } else if index == 644 {
        "acy;"@
    } else if index == 645 {
        "aelig"@
    } else if index == 646 {
        "aelig;"@
    } else if index == 647 {
        "af;"@
    } else if index == 648 {
        "afr;"@
    } else if index == 649 {
        "agrave"@
    } else if index == 650 {
        "agrave;"@
    } else if index == 651 {
        "alefsym;"@
    } else if index == 652 {
        "aleph;"@
    } else if index == 653 {
        "alpha;"@
    } else if index == 654 {
        "amacr;"@
    } else if index == 655 {
        "amalg;"@
    } else if index == 656 {
        "amp"@
    } else if index == 657 {
        "amp;"@
    } else if index == 658 {
        "and;"@
    } else if index == 659 {
        "andand;"@
    } else if index == 660 {
        "andd;"@
    } else if index == 661 {
        "andslope;"@
    } else if index == 662 {
        "andv;"@
    } else if index == 663 {
        "ang;"@
    } else if index == 664 {
        "ange;"@
    } else if index == 665 {
        "angle;"@
    } else if index == 666 {
        "angmsd;"@
    } else if index == 667 {
        "angmsdaa;"@
    } else if index == 668 {
        "angmsdab;"@
    } else if index == 669 {
        "angmsdac;"@
    } else if index == 670 {
        "angmsdad;"@
    } else if index == 671 {
        "angmsdae;"@
    } else if index == 672 {
        "angmsdaf;"@
    } else if index == 673 {
        "angmsdag;"@
    } else if index == 674 {
        "angmsdah;"@
    } else if index == 675 {
        "angrt;"@
    } else if index == 676 {
        "angrtvb;"@
    } else if index == 677 {
        "angrtvbd;"@
    } else if index == 678 {
        "angsph;"@
    } else if index == 679 {
        "angst;"@
    } else if index == 680 {
        "angzarr;"@
    } else if index == 681 {
        "aogon;"@
    } else if index == 682 {
        "aopf;"@
    } else if index == 683 {
        "ap;"@
    } else if index == 684 {
        "apE;"@
    } else if index == 685 {
        "apacir;"@
    } else if index == 686 {
        "ape;"@
    } else if index == 687 {
        "apid;"@
    } else if index == 688 {
        "apos;"@
    } else if index == 689 {
        "approx;"@
    } else if index == 690 {
        "approxeq;"@
    } else if index == 691 {
        "aring"@
    } else if index == 692 {
        "aring;"@
    } else if index == 693 {
        "ascr;"@
    } else if index == 694 {
        "ast;"@
    } else if index == 695 {
        "asymp;"@
    } else if index == 696 {
        "asympeq;"@
    } else if index == 697 {
        "atilde"@
    } else if index == 698 {
        "atilde;"@
    } else if index == 699 {
        "auml"@
    } else if index == 700 {
        "auml;"@
    } else if index == 701 {
        "awconint;"@
    } else if index == 702 {
        "awint;"@
    } else if index == 703 {
        "bNot;"@
    } else {
        Seq::empty()
    }
}

/// The characters that the references 640 to 703 stand for.
#[verifier::opaque]
pub open spec fn texts_640(index: int) -> Seq<char> {
    if index == 640 {
        "\u{E2}"@
    } else if index == 641 {
        "\u{E2}"@
    } else if index == 642 {
        "\u{B4}"@
    } else if index == 643 {
        "\u{B4}"@
    } else if index == 644 {
        "\u{430}"@
    } else if index == 645 {
        "\u{E6}"@
    } else if index == 646 {
        "\u{E6}"@
    } else if index == 647 {
        "\u{2061}"@
    } else if index == 648 {
        "\u{1D51E}"@
    } else if index == 649 {
        "\u{E0}"@
    } else if index == 650 {
        "\u{E0}"@
    } else if index == 651 {
        "\u{2135}"@
    } else if index == 652 {
        "\u{2135}"@
    } else if index == 653 {
        "\u{3B1}"@
    } else if index == 654 {
        "\u{101}"@
    } else if index == 655 {
        "\u{2A3F}"@
    } else if index == 656 {
        "\u{26}"@
    } else if index == 657 {
        "\u{26}"@
    } else if index == 658 {
        "\u{2227}"@
    } else if index == 659 {
        "\u{2A55}"@
    } else if index == 660 {
        "\u{2A5C}"@
    } else if index == 661 {
        "\u{2A58}"@
    } else if index == 662 {
        "\u{2A5A}"@
    } else if index == 663 {
        "\u{2220}"@
    } else if index == 664 {
        "\u{29A4}"@
    } else if index == 665 {
        "\u{2220}"@
    } else if index == 666 {
        "\u{2221}"@
    } else if index == 667 {
        "\u{29A8}"@
    } else if index == 668 {
        "\u{29A9}"@
    } else if index == 669 {
        "\u{29AA}"@
    } else if index == 670 {
        "\u{29AB}"@
    } else if index == 671 {
        "\u{29AC}"@
    } else if index == 672 {
        "\u{29AD}"@
    } else if index == 673 {
        "\u{29AE}"@
    } else if index == 674 {
        "\u{29AF}"@
    } else if index == 675 {
        "\u{221F}"@
    } else if index == 676 {
        "\u{22BE}"@
    } else if index == 677 {
        "\u{299D}"@
    } else if index == 678 {
        "\u{2222}"@
    } else if index == 679 {
        "\u{C5}"@
    } else if index == 680 {
        "\u{237C}"@
    } else if index == 681 {
        "\u{105}"@
    } else if index == 682 {
        "\u{1D552}"@
    } else if index == 683 {
        "\u{2248}"@
    } else if index == 684 {
        "\u{2A70}"@
    } else if index == 685 {
        "\u{2A6F}"@
    } else if index == 686 {
        "\u{224A}"@
    } else if index == 687 {
        "\u{224B}"@
    } else if index == 688 {
        "\u{27}"@
    } else if index == 689 {
        "\u{2248}"@
    } else if index == 690 {
        "\u{224A}"@
    } else if index == 691 {
        "\u{E5}"@
    } else if index == 692 {
        "\u{E5}"@
    } else if index == 693 {
        "\u{1D4B6}"@
    } else if index == 694 {
        "\u{2A}"@
    } else if index == 695 {
        "\u{2248}"@
    } else if index == 696 {
        "\u{224D}"@
    } else if index == 697 {
        "\u{E3}"@
    } else if index == 698 {
        "\u{E3}"@
    } else if index == 699 {
        "\u{E4}"@
    } else if index == 700 {
        "\u{E4}"@
    } else if index == 701 {
        "\u{2233}"@
    } else if index == 702 {
        "\u{2A11}"@
    } else if index == 703 {
        "\u{2AED}"@
    } else {
        Seq::empty()
    }
}

/// The name of the reference `index` and the characters that it stands for.
pub fn entry_640(index: usize) -> (r: (&'static str, &'static str))
    ensures
        r.0@ == names_640(index as int),
        r.1@ == texts_640(index as int),
{
    proof {
        reveal(names_640);
        reveal(texts_640);
        reveal_strlit("");
    }
    match index {
        640 => ("acirc", "\u{E2}"),
        641 => ("acirc;", "\u{E2}"),
        642 => ("acute", "\u{B4}"),
        643 => ("acute;", "\u{B4}"),
        644 => ("acy;", "\u{430}"),
        645 => ("aelig", "\u{E6}"),
        646 => ("aelig;", "\u{E6}"),
        647 => ("af;", "\u{2061}"),
        648 => ("afr;", "\u{1D51E}"),
        649 => ("agrave", "\u{E0}"),
        650 => ("agrave;", "\u{E0}"),
        651 => ("alefsym;", "\u{2135}"),
        652 => ("aleph;", "\u{2135}"),
        653 => ("alpha;", "\u{3B1}"),
        654 => ("amacr;", "\u{101}"),
        655 => ("amalg;", "\u{2A3F}"),
        656 => ("amp", "\u{26}"),
        657 => ("amp;", "\u{26}"),
        658 => ("and;", "\u{2227}"),
        659 => ("andand;", "\u{2A55}"),
        660 => ("andd;", "\u{2A5C}"),
        661 => ("andslope;", "\u{2A58}"),
        662 => ("andv;", "\u{2A5A}"),
        663 => ("ang;", "\u{2220}"),
        664 => ("ange;", "\u{29A4}"),
        665 => ("angle;", "\u{2220}"),
        666 => ("angmsd;", "\u{2221}"),
        667 => ("angmsdaa;", "\u{29A8}"),
        668 => ("angmsdab;", "\u{29A9}"),
        669 => ("angmsdac;", "\u{29AA}"),
        670 => ("angmsdad;", "\u{29AB}"),
        671 => ("angmsdae;", "\u{29AC}"),
        672 => ("angmsdaf;", "\u{29AD}"),
        673 => ("angmsdag;", "\u{29AE}"),
        674 => ("angmsdah;", "\u{29AF}"),
        675 => ("angrt;", "\u{221F}"),
        676 => ("angrtvb;", "\u{22BE}"),
        677 => ("angrtvbd;", "\u{299D}"),
        678 => ("angsph;", "\u{2222}"),
        679 => ("angst;", "\u{C5}"),
        680 => ("angzarr;", "\u{237C}"),
        681 => ("aogon;", "\u{105}"),
        682 => ("aopf;", "\u{1D552}"),
        683 => ("ap;", "\u{2248}"),
        684 => ("apE;", "\u{2A70}"),
        685 => ("apacir;", "\u{2A6F}"),
        686 => ("ape;", "\u{224A}"),
        687 => ("apid;", "\u{224B}"),
        688 => ("apos;", "\u{27}"),
        689 => ("approx;", "\u{2248}"),
        690 => ("approxeq;", "\u{224A}"),
        691 => ("aring", "\u{E5}"),
        692 => ("aring;", "\u{E5}"),
        693 => ("ascr;", "\u{1D4B6}"),
        694 => ("ast;", "\u{2A}"),
        695 => ("asymp;", "\u{2248}"),
        696 => ("asympeq;", "\u{224D}"),
        697 => ("atilde", "\u{E3}"),
        698 => ("atilde;", "\u{E3}"),
        699 => ("auml", "\u{E4}"),
        700 => ("auml;", "\u{E4}"),
        701 => ("awconint;", "\u{2233}"),
        702 => ("awint;", "\u{2A11}"),
        703 => ("bNot;", "\u{2AED}"),
        _ => ("", ""),
    }
}

/// The names of the references 704 to 767, from `&backcong;` to `&boxUL;`.
#[verifier::opaque]
pub open spec fn names_704(index: int) -> Seq<char> {
    if index == 704 {
        "backcong;"@
    } else if index == 705 {
        "backepsilon;"@
    } else if index == 706 {
        "backprime;"@
    } else if index == 707 {
        "backsim;"@
    } else if index == 708 {
        "backsimeq;"@
    } else if index == 709 {
        "barvee;"@
    } else if index == 710 {
        "barwed;"@
    } else if index == 711 {
        "barwedge;"@
    } else if index == 712 {
        "bbrk;"@
    } else if index == 713 {
        "bbrktbrk;"@
    } else if index == 714 {
        "bcong;"@
    } else if index == 715 {
        "bcy;"@
    } else if index == 716 {
        "bdquo;"@
    } else if index == 717 {
        "becaus;"@
    } else if index == 718 {
        "because;"@
    } else if index == 719 {
        "bemptyv;"@
    } else if index == 720 {
        "bepsi;"@
    } else if index == 721 {
        "bernou;"@
    } else if index == 722 {
        "beta;"@
    } else if index == 723 {
        "beth;"@
    } else if index == 724 {
        "between;"@
    } else if index == 725 {
        "bfr;"@
    } else if index == 726 {
        "bigcap;"@
    } else if index == 727 {
        "bigcirc;"@
    } else if index == 728 {
        "bigcup;"@
    } else if index == 729 {
        "bigodot;"@
    } else if index == 730 {
        "bigoplus;"@
    } else if index == 731 {
        "bigotimes;"@
    } else if index == 732 {
        "bigsqcup;"@
    } else if index == 733 {
        "bigstar;"@
    } else if index == 734 {
        "bigtriangledown;"@
    } else if index == 735 {
        "bigtriangleup;"@
    } else if index == 736 {
        "biguplus;"@
    } else if index == 737 {
        "bigvee;"@
    } else if index == 738 {
        "bigwedge;"@
    } else if index == 739 {
        "bkarow;"@
    } else if index == 740 {
        "blacklozenge;"@
    } else if index == 741 {
        "blacksquare;"@
    } else if index == 742 {
        "blacktriangle;"@
    } else if index == 743 {
        "blacktriangledown;"@
    } else if index == 744 {
        "blacktriangleleft;"@
    } else if index == 745 {
        "blacktriangleright;"@
    } else if index == 746 {
        "blank;"@
    } else if index == 747 {
        "blk12;"@
    } else if index == 748 {
        "blk14;"@
    } else if index == 749 {
        "blk34;"@
    } else if index == 750 {
        "block;"@
    } else if index == 751 {
        "bne;"@
    } else if index == 752 {
        "bnequiv;"@
    } else if index == 753 {
        "bnot;"@
    } else if index == 754 {
        "bopf;"@
    } else if index == 755 {
        "bot;"@
    } else if index == 756 {
        "bottom;"@
    } else if index == 757 {
        "bowtie;"@
    } else if index == 758 {
        "boxDL;"@
    } else if index == 759 {
        "boxDR;"@
    } else if index == 760 {
        "boxDl;"@
    } else if index == 761 {
        "boxDr;"@
    } else if index == 762 {
        "boxH;"@
    } else if index == 763 {
        "boxHD;"@
    } else if index == 764 {
        "boxHU;"@
    } else if index == 765 {
        "boxHd;"@
    } else if index == 766 {
        "boxHu;"@
    } else if index == 767 {
        "boxUL;"@
    } else {
        Seq::empty()
    }
}

/// The characters that the references 704 to 767 stand for.
#[verifier::opaque]
pub open spec fn texts_704(index: int) -> Seq<char> {
    if index == 704 {
        "\u{224C}"@
    } else if index == 705 {
        "\u{3F6}"@
    } else if index == 706 {
        "\u{2035}"@
    } else if index == 707 {
        "\u{223D}"@
    } else if index == 708 {
        "\u{22CD}"@
    } else if index == 709 {
        "\u{22BD}"@
    } else if index == 710 {
        "\u{2305}"@
    } else if index == 711 {
        "\u{2305}"@
    } else if index == 712 {
        "\u{23B5}"@
    } else if index == 713 {
        "\u{23B6}"@
    } else if index == 714 {
        "\u{224C}"@
    } else if index == 715 {
        "\u{431}"@
    } else if index == 716 {
        "\u{201E}"@
    } else if index == 717 {
        "\u{2235}"@
    } else if index == 718 {
        "\u{2235}"@
    } else if index == 719 {
        "\u{29B0}"@
    } else if index == 720 {
        "\u{3F6}"@
    } else if index == 721 {
        "\u{212C}"@
    } else if index == 722 {
        "\u{3B2}"@
    } else if index == 723 {
        "\u{2136}"@
    } else if index == 724 {
        "\u{226C}"@
    } else if index == 725 {
        "\u{1D51F}"@
    } else if index == 726 {
        "\u{22C2}"@
    } else if index == 727 {
        "\u{25EF}"@
    } else if index == 728 {
        "\u{22C3}"@
    } else if index == 729 {
        "\u{2A00}"@
    } else if index == 730 {
        "\u{2A01}"@
    } else if index == 731 {
        "\u{2A02}"@
    } else if index == 732 {
        "\u{2A06}"@
    } else if index == 733 {
        "\u{2605}"@
    } else if index == 734 {
        "\u{25BD}"@
    } else if index == 735 {
        "\u{25B3}"@
    } else if index == 736 {
        "\u{2A04}"@
    } else if index == 737 {
        "\u{22C1}"@
    } else if index == 738 {
        "\u{22C0}"@
    } else if index == 739 {
        "\u{290D}"@
    } else if index == 740 {
        "\u{29EB}"@
    } else if index == 741 {
        "\u{25AA}"@
    } else if index == 742 {
        "\u{25B4}"@
    } else if index == 743 {
        "\u{25BE}"@
    } else if index == 744 {
        "\u{25C2}"@
    } else if index == 745 {
        "\u{25B8}"@
    } else if index == 746 {
        "\u{2423}"@
    } else if index == 747 {
        "\u{2592}"@
    } else if index == 748 {
        "\u{2591}"@
    } else if index == 749 {
        "\u{2593}"@
    } else if index == 750 {
        "\u{2588}"@
    } else if index == 751 {
        "\u{3D}\u{20E5}"@
    } else if index == 752 {
        "\u{2261}\u{20E5}"@
    } else if index == 753 {
        "\u{2310}"@
    } else if index == 754 {
        "\u{1D553}"@
    } else if index == 755 {
        "\u{22A5}"@
    } else if index == 756 {
        "\u{22A5}"@
    } else if index == 757 {
        "\u{22C8}"@
    } else if index == 758 {
        "\u{2557}"@
    } else if index == 759 {
        "\u{2554}"@
    } else if index == 760 {
        "\u{2556}"@
    } else if index == 761 {
        "\u{2553}"@
    } else if index == 762 {
        "\u{2550}"@
    } else if index == 763 {
        "\u{2566}"@
    } else if index == 764 {
        "\u{2569}"@
    } else if index == 765 {
        "\u{2564}"@
    } else if index == 766 {
        "\u{2567}"@
    } else if index == 767 {
        "\u{255D}"@
    } else {
        Seq::empty()
    }
}

/// The name of the reference `index` and the characters that it stands for.
pub fn entry_704(index: usize) -> (r: (&'static str, &'static str))
    ensures
        r.0@ == names_704(index as int),
        r.1@ == texts_704(index as int),
{
    proof {
        reveal(names_704);
        reveal(texts_704);
        reveal_strlit("");
    }
    match index {
        704 => ("backcong;", "\u{224C}"),
        705 => ("backepsilon;", "\u{3F6}"),
        706 => ("backprime;", "\u{2035}"),
        707 => ("backsim;", "\u{223D}"),
        708 => ("backsimeq;", "\u{22CD}"),
        709 => ("barvee;", "\u{22BD}"),
        710 => ("barwed;", "\u{2305}"),
        711 => ("barwedge;", "\u{2305}"),
        712 => ("bbrk;", "\u{23B5}"),
        713 => ("bbrktbrk;", "\u{23B6}"),
        714 => ("bcong;", "\u{224C}"),
        715 => ("bcy;", "\u{431}"),
        716 => ("bdquo;", "\u{201E}"),
        717 => ("becaus;", "\u{2235}"),
        718 => ("because;", "\u{2235}"),
        719 => ("bemptyv;", "\u{29B0}"),
        720 => ("bepsi;", "\u{3F6}"),
        721 => ("bernou;", "\u{212C}"),
        722 => ("beta;", "\u{3B2}"),
        723 => ("beth;", "\u{2136}"),
        724 => ("between;", "\u{226C}"),
        725 => ("bfr;", "\u{1D51F}"),
        726 => ("bigcap;", "\u{22C2}"),
        727 => ("bigcirc;", "\u{25EF}"),
        728 => ("bigcup;", "\u{22C3}"),
        729 => ("bigodot;", "\u{2A00}"),
        730 => ("bigoplus;", "\u{2A01}"),
        731 => ("bigotimes;", "\u{2A02}"),
        732 => ("bigsqcup;", "\u{2A06}"),
        733 => ("bigstar;", "\u{2605}"),
        734 => ("bigtriangledown;", "\u{25BD}"),
        735 => ("bigtriangleup;", "\u{25B3}"),
        736 => ("biguplus;", "\u{2A04}"),
        737 => ("bigvee;", "\u{22C1}"),
        738 => ("bigwedge;", "\u{22C0}"),
        739 => ("bkarow;", "\u{290D}"),
        740 => ("blacklozenge;", "\u{29EB}"),
        741 => ("blacksquare;", "\u{25AA}"),
        742 => ("blacktriangle;", "\u{25B4}"),
        743 => ("blacktriangledown;", "\u{25BE}"),
        744 => ("blacktriangleleft;", "\u{25C2}"),
        745 => ("blacktriangleright;", "\u{25B8}"),
        746 => ("blank;", "\u{2423}"),
        747 => ("blk12;", "\u{2592}"),
        748 => ("blk14;", "\u{2591}"),
        749 => ("blk34;", "\u{2593}"),
        750 => ("block;", "\u{2588}"),
        751 => ("bne;", "\u{3D}\u{20E5}"),
        752 => ("bnequiv;", "\u{2261}\u{20E5}"),
        753 => ("bnot;", "\u{2310}"),
        754 => ("bopf;", "\u{1D553}"),
        755 => ("bot;", "\u{22A5}"),
        756 => ("bottom;", "\u{22A5}"),
        757 => ("bowtie;", "\u{22C8}"),
        758 => ("boxDL;", "\u{2557}"),
        759 => ("boxDR;", "\u{2554}"),
        760 => ("boxDl;", "\u{2556}"),
        761 => ("boxDr;", "\u{2553}"),
        762 => ("boxH;", "\u{2550}"),
        763 => ("boxHD;", "\u{2566}"),
        764 => ("boxHU;", "\u{2569}"),
        765 => ("boxHd;", "\u{2564}"),
        766 => ("boxHu;", "\u{2567}"),
        767 => ("boxUL;", "\u{255D}"),
        _ => ("", ""),
    }
}

} // verus!
