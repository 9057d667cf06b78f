use vstd::prelude::*;

verus! {

/// The names of the references 1536 to 1599, from `&notniva;` to `&nvge;`.
#[verifier::opaque]
pub open spec fn names_1536(index: int) -> Seq<char> {
    if index == 1536 {
        "notniva;"@
    } else if index == 1537 {
        "notnivb;"@
    } else if index == 1538 {
        "notnivc;"@
    } else if index == 1539 {
        "npar;"@
    } else if index == 1540 {
        "nparallel;"@
    } else if index == 1541 {
        "nparsl;"@
    } else if index == 1542 {
        "npart;"@
    } else if index == 1543 {
        "npolint;"@
    } else if index == 1544 {
        "npr;"@
    } else if index == 1545 {
        "nprcue;"@
    } else if index == 1546 {
        "npre;"@
    } else if index == 1547 {
        "nprec;"@
    } else if index == 1548 {
        "npreceq;"@
    } else if index == 1549 {
        "nrArr;"@
    } else if index == 1550 {
        "nrarr;"@
    } else if index == 1551 {
        "nrarrc;"@
    } else if index == 1552 {
        "nrarrw;"@
    } else if index == 1553 {
        "nrightarrow;"@
    } else if index == 1554 {
        "nrtri;"@
    } else if index == 1555 {
        "nrtrie;"@
    } else if index == 1556 {
        "nsc;"@
    } else if index == 1557 {
        "nsccue;"@
    } else if index == 1558 {
        "nsce;"@
    } else if index == 1559 {
        "nscr;"@
    } else if index == 1560 {
        "nshortmid;"@
    } else if index == 1561 {
        "nshortparallel;"@
    } else if index == 1562 {
        "nsim;"@
    } else if index == 1563 {
        "nsime;"@
    } else if index == 1564 {
        "nsimeq;"@
    } else if index == 1565 {
        "nsmid;"@
    } else if index == 1566 {
        "nspar;"@
    } else if index == 1567 {
        "nsqsube;"@
    } else if index == 1568 {
        "nsqsupe;"@
    } else if index == 1569 {
        "nsub;"@
    } else if index == 1570 {
        "nsubE;"@
    } else if index == 1571 {
        "nsube;"@
    } else if index == 1572 {
        "nsubset;"@
    } else if index == 1573 {
        "nsubseteq;"@
    } else if index == 1574 {
        "nsubseteqq;"@
    } else if index == 1575 {
        "nsucc;"@
    } else if index == 1576 {
        "nsucceq;"@
    } else if index == 1577 {
        "nsup;"@
    } else if index == 1578 {
        "nsupE;"@
    } else if index == 1579 {
        "nsupe;"@
    } else if index == 1580 {
        "nsupset;"@
    } else if index == 1581 {
        "nsupseteq;"@
    } else if index == 1582 {
        "nsupseteqq;"@
    } else if index == 1583 {
        "ntgl;"@
    } else if index == 1584 {
        "ntilde"@
    } else if index == 1585 {
        "ntilde;"@
    } else if index == 1586 {
        "ntlg;"@
    } else if index == 1587 {
        "ntriangleleft;"@
    } else if index == 1588 {
        "ntrianglelefteq;"@
    } else if index == 1589 {
        "ntriangleright;"@
    } else if index == 1590 {
        "ntrianglerighteq;"@
    } else if index == 1591 {
        "nu;"@
    } else if index == 1592 {
        "num;"@
    } else if index == 1593 {
        "numero;"@
    } else if index == 1594 {
        "numsp;"@
    } else if index == 1595 {
        "nvDash;"@
    } else if index == 1596 {
        "nvHarr;"@
    } else if index == 1597 {
        "nvap;"@
    } else if index == 1598 {
        "nvdash;"@
    } else if index == 1599 {
        "nvge;"@
    } else {
        Seq::empty()
    }
}

/// The characters that the references 1536 to 1599 stand for.
#[verifier::opaque]
pub open spec fn texts_1536(index: int) -> Seq<char> {
    if index == 1536 {
        "\u{220C}"@
    } else if index == 1537 {
        "\u{22FE}"@
    } else if index == 1538 {
        "\u{22FD}"@
    } else if index == 1539 {
        "\u{2226}"@
    } else if index == 1540 {
        "\u{2226}"@
    } else if index == 1541 {
        "\u{2AFD}\u{20E5}"@
    } else if index == 1542 {
        "\u{2202}\u{338}"@
    } else if index == 1543 {
        "\u{2A14}"@
    } else if index == 1544 {
        "\u{2280}"@
    } else if index == 1545 {
        "\u{22E0}"@
    } else if index == 1546 {
        "\u{2AAF}\u{338}"@
    } else if index == 1547 {
        "\u{2280}"@
    } else if index == 1548 {
        "\u{2AAF}\u{338}"@
    } else if index == 1549 {
        "\u{21CF}"@
    } else if index == 1550 {
        "\u{219B}"@
    } else if index == 1551 {
        "\u{2933}\u{338}"@
    } else if index == 1552 {
        "\u{219D}\u{338}"@
    } else if index == 1553 {
        "\u{219B}"@
    } else if index == 1554 {
        "\u{22EB}"@
    } else if index == 1555 {
        "\u{22ED}"@
    } else if index == 1556 {
        "\u{2281}"@
    } else if index == 1557 {
        "\u{22E1}"@
    } else if index == 1558 {
        "\u{2AB0}\u{338}"@
    } else if index == 1559 {
        "\u{1D4C3}"@
    } else if index == 1560 {
        "\u{2224}"@
    } else if index == 1561 {
        "\u{2226}"@
    } else if index == 1562 {
        "\u{2241}"@
    } else if index == 1563 {
        "\u{2244}"@
    } else if index == 1564 {
        "\u{2244}"@
    } else if index == 1565 {
        "\u{2224}"@
    } else if index == 1566 {
        "\u{2226}"@
    } else if index == 1567 {
        "\u{22E2}"@
    } else if index == 1568 {
        "\u{22E3}"@
    } else if index == 1569 {
        "\u{2284}"@
    } else if index == 1570 {
        "\u{2AC5}\u{338}"@
    } else if index == 1571 {
        "\u{2288}"@
    } else if index == 1572 {
        "\u{2282}\u{20D2}"@
    } else if index == 1573 {
        "\u{2288}"@
    } else if index == 1574 {
        "\u{2AC5}\u{338}"@
    } else if index == 1575 {
        "\u{2281}"@
    } else if index == 1576 {
        "\u{2AB0}\u{338}"@
    } else if index == 1577 {
        "\u{2285}"@
    } else if index == 1578 {
        "\u{2AC6}\u{338}"@
    } else if index == 1579 {
        "\u{2289}"@
    } else if index == 1580 {
        "\u{2283}\u{20D2}"@
    } else if index == 1581 {
        "\u{2289}"@
    } else if index == 1582 {
        "\u{2AC6}\u{338}"@
    } else if index == 1583 {
        "\u{2279}"@
    } else if index == 1584 {
        "\u{F1}"@
    } else if index == 1585 {
        "\u{F1}"@
    } else if index == 1586 {
        "\u{2278}"@
    } else if index == 1587 {
        "\u{22EA}"@
    } else if index == 1588 {
        "\u{22EC}"@
    } else if index == 1589 {
        "\u{22EB}"@
    } else if index == 1590 {
        "\u{22ED}"@
    } else if index == 1591 {
        "\u{3BD}"@
    } else if index == 1592 {
        "\u{23}"@
    } else if index == 1593 {
        "\u{2116}"@
    } else if index == 1594 {
        "\u{2007}"@
    } else if index == 1595 {
        "\u{22AD}"@
    } else if index == 1596 {
        "\u{2904}"@
    } else if index == 1597 {
        "\u{224D}\u{20D2}"@
    } else if index == 1598 {
        "\u{22AC}"@
    } else if index == 1599 {
        "\u{2265}\u{20D2}"@
    } else {
        Seq::empty()
    }
}

/// The name of the reference `index` and the characters that it stands for.
pub fn entry_1536(index: usize) -> (r: (&'static str, &'static str))
    ensures
        r.0@ == names_1536(index as int),
        r.1@ == texts_1536(index as int),
{
    proof {
        reveal(names_1536);
        reveal(texts_1536);
        reveal_strlit("");
    }
    match index {
        1536 => ("notniva;", "\u{220C}"),
        1537 => ("notnivb;", "\u{22FE}"),
        1538 => ("notnivc;", "\u{22FD}"),
        1539 => ("npar;", "\u{2226}"),
        1540 => ("nparallel;", "\u{2226}"),
        1541 => ("nparsl;", "\u{2AFD}\u{20E5}"),
        1542 => ("npart;", "\u{2202}\u{338}"),
        1543 => ("npolint;", "\u{2A14}"),
        1544 => ("npr;", "\u{2280}"),
        1545 => ("nprcue;", "\u{22E0}"),
        1546 => ("npre;", "\u{2AAF}\u{338}"),
        1547 => ("nprec;", "\u{2280}"),
        1548 => ("npreceq;", "\u{2AAF}\u{338}"),
        1549 => ("nrArr;", "\u{21CF}"),
        1550 => ("nrarr;", "\u{219B}"),
        1551 => ("nrarrc;", "\u{2933}\u{338}"),
        1552 => ("nrarrw;", "\u{219D}\u{338}"),
        1553 => ("nrightarrow;", "\u{219B}"),
        1554 => ("nrtri;", "\u{22EB}"),
        1555 => ("nrtrie;", "\u{22ED}"),
        1556 => ("nsc;", "\u{2281}"),
        1557 => ("nsccue;", "\u{22E1}"),
        1558 => ("nsce;", "\u{2AB0}\u{338}"),
        1559 => ("nscr;", "\u{1D4C3}"),
        1560 => ("nshortmid;", "\u{2224}"),
        1561 => ("nshortparallel;", "\u{2226}"),
        1562 => ("nsim;", "\u{2241}"),
        1563 => ("nsime;", "\u{2244}"),
        1564 => ("nsimeq;", "\u{2244}"),
        1565 => ("nsmid;", "\u{2224}"),
        1566 => ("nspar;", "\u{2226}"),
        1567 => ("nsqsube;", "\u{22E2}"),
        1568 => ("nsqsupe;", "\u{22E3}"),
        1569 => ("nsub;", "\u{2284}"),
        1570 => ("nsubE;", "\u{2AC5}\u{338}"),
        1571 => ("nsube;", "\u{2288}"),
        1572 => ("nsubset;", "\u{2282}\u{20D2}"),
        1573 => ("nsubseteq;", "\u{2288}"),
        1574 => ("nsubseteqq;", "\u{2AC5}\u{338}"),
        1575 => ("nsucc;", "\u{2281}"),
        1576 => ("nsucceq;", "\u{2AB0}\u{338}"),
        1577 => ("nsup;", "\u{2285}"),
        1578 => ("nsupE;", "\u{2AC6}\u{338}"),
        1579 => ("nsupe;", "\u{2289}"),
        1580 => ("nsupset;", "\u{2283}\u{20D2}"),
        1581 => ("nsupseteq;", "\u{2289}"),
        1582 => ("nsupseteqq;", "\u{2AC6}\u{338}"),
        1583 => ("ntgl;", "\u{2279}"),
        1584 => ("ntilde", "\u{F1}"),
        1585 => ("ntilde;", "\u{F1}"),
        1586 => ("ntlg;", "\u{2278}"),
        1587 => ("ntriangleleft;", "\u{22EA}"),
        1588 => ("ntrianglelefteq;", "\u{22EC}"),
        1589 => ("ntriangleright;", "\u{22EB}"),
        1590 => ("ntrianglerighteq;", "\u{22ED}"),
        1591 => ("nu;", "\u{3BD}"),
        1592 => ("num;", "\u{23}"),
        1593 => ("numero;", "\u{2116}"),
        1594 => ("numsp;", "\u{2007}"),
        1595 => ("nvDash;", "\u{22AD}"),
        1596 => ("nvHarr;", "\u{2904}"),
        1597 => ("nvap;", "\u{224D}\u{20D2}"),
        1598 => ("nvdash;", "\u{22AC}"),
        1599 => ("nvge;", "\u{2265}\u{20D2}"),
        _ => ("", ""),
    }
}

/// The names of the references 1600 to 1663, from `&nvgt;` to `&orv;`.
#[verifier::opaque]
pub open spec fn names_1600(index: int) -> Seq<char> {
    if index == 1600 {
        "nvgt;"@
    } else if index == 1601 {
        "nvinfin;"@
    } else if index == 1602 {
        "nvlArr;"@
    } else if index == 1603 {
        "nvle;"@
    } else if index == 1604 {
        "nvlt;"@
    } else if index == 1605 {
        "nvltrie;"@
    } else if index == 1606 {
        "nvrArr;"@
    } else if index == 1607 {
        "nvrtrie;"@
    } else if index == 1608 {
        "nvsim;"@
    } else if index == 1609 {
        "nwArr;"@
    } else if index == 1610 {
        "nwarhk;"@
    } else if index == 1611 {
        "nwarr;"@
    } else if index == 1612 {
        "nwarrow;"@
    } else if index == 1613 {
        "nwnear;"@
    } else if index == 1614 {
        "oS;"@
    } else if index == 1615 {
        "oacute"@
    } else if index == 1616 {
        "oacute;"@
    } else if index == 1617 {
        "oast;"@
    } else if index == 1618 {
        "ocir;"@
    } else if index == 1619 {
        "ocirc"@
    } else if index == 1620 {
        "ocirc;"@
    } else if index == 1621 {
        "ocy;"@
    } else if index == 1622 {
        "odash;"@
    } else if index == 1623 {
        "odblac;"@
    } else if index == 1624 {
        "odiv;"@
    } else if index == 1625 {
        "odot;"@
    } else if index == 1626 {
        "odsold;"@
    } else if index == 1627 {
        "oelig;"@
    } else if index == 1628 {
        "ofcir;"@
    } else if index == 1629 {
        "ofr;"@
    } else if index == 1630 {
        "ogon;"@
    } else if index == 1631 {
        "ograve"@
    } else if index == 1632 {
        "ograve;"@
    } else if index == 1633 {
        "ogt;"@
    } else if index == 1634 {
        "ohbar;"@
    } else if index == 1635 {
        "ohm;"@
    } else if index == 1636 {
        "oint;"@
    } else if index == 1637 {
        "olarr;"@
    } else if index == 1638 {
        "olcir;"@
    } else if index == 1639 {
        "olcross;"@
    } else if index == 1640 {
        "oline;"@
    } else if index == 1641 {
        "olt;"@
    } else if index == 1642 {
        "omacr;"@
    } else if index == 1643 {
        "omega;"@
    } else if index == 1644 {
        "omicron;"@
    } else if index == 1645 {
        "omid;"@
    } else if index == 1646 {
        "ominus;"@
    } else if index == 1647 {
        "oopf;"@
    } else if index == 1648 {
        "opar;"@
    } else if index == 1649 {
        "operp;"@
    } else if index == 1650 {
        "oplus;"@
    } else if index == 1651 {
        "or;"@
    } else if index == 1652 {
        "orarr;"@
    } else if index == 1653 {
        "ord;"@
    } else if index == 1654 {
        "order;"@
    } else if index == 1655 {
        "orderof;"@
    } else if index == 1656 {
        "ordf"@
    } else if index == 1657 {
        "ordf;"@
    } else if index == 1658 {
        "ordm"@
    } else if index == 1659 {
        "ordm;"@
    } else if index == 1660 {
        "origof;"@
    } else if index == 1661 {
        "oror;"@
    } else if index == 1662 {
        "orslope;"@
    } else if index == 1663 {
        "orv;"@
    } else {
        Seq::empty()
    }
}

/// The characters that the references 1600 to 1663 stand for.
#[verifier::opaque]
pub open spec fn texts_1600(index: int) -> Seq<char> {
    if index == 1600 {
        "\u{3E}\u{20D2}"@
    } else if index == 1601 {
        "\u{29DE}"@
    } else if index == 1602 {
        "\u{2902}"@
    } else if index == 1603 {
        "\u{2264}\u{20D2}"@
    } else if index == 1604 {
        "\u{3C}\u{20D2}"@
    } else if index == 1605 {
        "\u{22B4}\u{20D2}"@
    } else if index == 1606 {
        "\u{2903}"@
    } else if index == 1607 {
        "\u{22B5}\u{20D2}"@
    } else if index == 1608 {
        "\u{223C}\u{20D2}"@
    } else if index == 1609 {
        "\u{21D6}"@
    } else if index == 1610 {
        "\u{2923}"@
    } else if index == 1611 {
        "\u{2196}"@
    } else if index == 1612 {
        "\u{2196}"@
    } else if index == 1613 {
        "\u{2927}"@
    } else if index == 1614 {
        "\u{24C8}"@
    } else if index == 1615 {
        "\u{F3}"@
    } else if index == 1616 {
        "\u{F3}"@
    } else if index == 1617 {
        "\u{229B}"@
    } else if index == 1618 {
        "\u{229A}"@
    } else if index == 1619 {
        "\u{F4}"@
    } else if index == 1620 {
        "\u{F4}"@
    } else if index == 1621 {
        "\u{43E}"@
    } else if index == 1622 {
        "\u{229D}"@
    } else if index == 1623 {
        "\u{151}"@
    } else if index == 1624 {
        "\u{2A38}"@
    } else if index == 1625 {
        "\u{2299}"@
    } else if index == 1626 {
        "\u{29BC}"@
    } else if index == 1627 {
        "\u{153}"@
    } else if index == 1628 {
        "\u{29BF}"@
    } else if index == 1629 {
        "\u{1D52C}"@
    } else if index == 1630 {
        "\u{2DB}"@
    } else if index == 1631 {
        "\u{F2}"@
    } else if index == 1632 {
        "\u{F2}"@
    } else if index == 1633 {
        "\u{29C1}"@
    } else if index == 1634 {
        "\u{29B5}"@
    } else if index == 1635 {
        "\u{3A9}"@
    } else if index == 1636 {
        "\u{222E}"@
    } else if index == 1637 {
        "\u{21BA}"@
    } else if index == 1638 {
        "\u{29BE}"@
    } else if index == 1639 {
        "\u{29BB}"@
    } else if index == 1640 {
        "\u{203E}"@
    } else if index == 1641 {
        "\u{29C0}"@
    } else if index == 1642 {
        "\u{14D}"@
    } else if index == 1643 {
        "\u{3C9}"@
    } else if index == 1644 {
        "\u{3BF}"@
    } else if index == 1645 {
        "\u{29B6}"@
    } else if index == 1646 {
        "\u{2296}"@
    } else if index == 1647 {
        "\u{1D560}"@
    } else if index == 1648 {
        "\u{29B7}"@
    } else if index == 1649 {
        "\u{29B9}"@
    } else if index == 1650 {
        "\u{2295}"@
    } else if index == 1651 {
        "\u{2228}"@
    } else if index == 1652 {
        "\u{21BB}"@
    } else if index == 1653 {
        "\u{2A5D}"@
    } else if index == 1654 {
        "\u{2134}"@
    } else if index == 1655 {
        "\u{2134}"@
    } else if index == 1656 {
        "\u{AA}"@
    } else if index == 1657 {
        "\u{AA}"@
    } else if index == 1658 {
        "\u{BA}"@
    } else if index == 1659 {
        "\u{BA}"@
    } else if index == 1660 {
        "\u{22B6}"@
    } else if index == 1661 {
        "\u{2A56}"@
    } else if index == 1662 {
        "\u{2A57}"@
    } else if index == 1663 {
        "\u{2A5B}"@
    } else {
        Seq::empty()
    }
}

/// The name of the reference `index` and the characters that it stands for.
pub fn entry_1600(index: usize) -> (r: (&'static str, &'static str))
    ensures
        r.0@ == names_1600(index as int),
        r.1@ == texts_1600(index as int),
{
    proof {
        reveal(names_1600);
        reveal(texts_1600);
        reveal_strlit("");
    }
    match index {
        1600 => ("nvgt;", "\u{3E}\u{20D2}"),
        1601 => ("nvinfin;", "\u{29DE}"),
        1602 => ("nvlArr;", "\u{2902}"),
        1603 => ("nvle;", "\u{2264}\u{20D2}"),
        1604 => ("nvlt;", "\u{3C}\u{20D2}"),
        1605 => ("nvltrie;", "\u{22B4}\u{20D2}"),
        1606 => ("nvrArr;", "\u{2903}"),
        1607 => ("nvrtrie;", "\u{22B5}\u{20D2}"),
        1608 => ("nvsim;", "\u{223C}\u{20D2}"),
        1609 => ("nwArr;", "\u{21D6}"),
        1610 => ("nwarhk;", "\u{2923}"),
        1611 => ("nwarr;", "\u{2196}"),
        1612 => ("nwarrow;", "\u{2196}"),
        1613 => ("nwnear;", "\u{2927}"),
        1614 => ("oS;", "\u{24C8}"),
        1615 => ("oacute", "\u{F3}"),
        1616 => ("oacute;", "\u{F3}"),
        1617 => ("oast;", "\u{229B}"),
        1618 => ("ocir;", "\u{229A}"),
        1619 => ("ocirc", "\u{F4}"),
        1620 => ("ocirc;", "\u{F4}"),
        1621 => ("ocy;", "\u{43E}"),
        1622 => ("odash;", "\u{229D}"),
        1623 => ("odblac;", "\u{151}"),
        1624 => ("odiv;", "\u{2A38}"),
        1625 => ("odot;", "\u{2299}"),
        1626 => ("odsold;", "\u{29BC}"),
        1627 => ("oelig;", "\u{153}"),
        1628 => ("ofcir;", "\u{29BF}"),
        1629 => ("ofr;", "\u{1D52C}"),
        1630 => ("ogon;", "\u{2DB}"),
        1631 => ("ograve", "\u{F2}"),
        1632 => ("ograve;", "\u{F2}"),
        1633 => ("ogt;", "\u{29C1}"),
        1634 => ("ohbar;", "\u{29B5}"),
        1635 => ("ohm;", "\u{3A9}"),
        1636 => ("oint;", "\u{222E}"),
        1637 => ("olarr;", "\u{21BA}"),
        1638 => ("olcir;", "\u{29BE}"),
        1639 => ("olcross;", "\u{29BB}"),
        1640 => ("oline;", "\u{203E}"),
        1641 => ("olt;", "\u{29C0}"),
        1642 => ("omacr;", "\u{14D}"),
        1643 => ("omega;", "\u{3C9}"),
        1644 => ("omicron;", "\u{3BF}"),
        1645 => ("omid;", "\u{29B6}"),
        1646 => ("ominus;", "\u{2296}"),
        1647 => ("oopf;", "\u{1D560}"),
        1648 => ("opar;", "\u{29B7}"),
        1649 => ("operp;", "\u{29B9}"),
        1650 => ("oplus;", "\u{2295}"),
        1651 => ("or;", "\u{2228}"),
        1652 => ("orarr;", "\u{21BB}"),
        1653 => ("ord;", "\u{2A5D}"),
        1654 => ("order;", "\u{2134}"),
        1655 => ("orderof;", "\u{2134}"),
        1656 => ("ordf", "\u{AA}"),
        1657 => ("ordf;", "\u{AA}"),
        1658 => ("ordm", "\u{BA}"),
        1659 => ("ordm;", "\u{BA}"),
        1660 => ("origof;", "\u{22B6}"),
        1661 => ("oror;", "\u{2A56}"),
        1662 => ("orslope;", "\u{2A57}"),
        1663 => ("orv;", "\u{2A5B}"),
        _ => ("", ""),
    }
}

/// The names of the references 1664 to 1727, from `&oscr;` to `&precsim;`.
#[verifier::opaque]
pub open spec fn names_1664(index: int) -> Seq<char> {
    if index == 1664 {
        "oscr;"@
    } else if index == 1665 {
        "oslash"@
    } else if index == 1666 {
        "oslash;"@
    } else if index == 1667 {
        "osol;"@
    } else if index == 1668 {
        "otilde"@
    } else if index == 1669 {
        "otilde;"@
    } else if index == 1670 {
        "otimes;"@
    } else if index == 1671 {
        "otimesas;"@
    } else if index == 1672 {
        "ouml"@
    } else if index == 1673 {
        "ouml;"@
    } else if index == 1674 {
        "ovbar;"@
    } else if index == 1675 {
        "par;"@
    } else if index == 1676 {
        "para"@
    } else if index == 1677 {
        "para;"@
    } else if index == 1678 {
        "parallel;"@
    } else if index == 1679 {
        "parsim;"@
    } else if index == 1680 {
        "parsl;"@
    } else if index == 1681 {
        "part;"@
    } else if index == 1682 {
        "pcy;"@
    } else if index == 1683 {
        "percnt;"@
    } else if index == 1684 {
        "period;"@
    } else if index == 1685 {
        "permil;"@
    } else if index == 1686 {
        "perp;"@
    } else if index == 1687 {
        "pertenk;"@
    } else if index == 1688 {
        "pfr;"@
    } else if index == 1689 {
        "phi;"@
    } else if index == 1690 {
        "phiv;"@
    } else if index == 1691 {
        "phmmat;"@
    } else if index == 1692 {
        "phone;"@
    } else if index == 1693 {
        "pi;"@
    } else if index == 1694 {
        "pitchfork;"@
    } else if index == 1695 {
        "piv;"@
    } else if index == 1696 {
        "planck;"@
    } else if index == 1697 {
        "planckh;"@
    } else if index == 1698 {
        "plankv;"@
    } else if index == 1699 {
        "plus;"@
    } else if index == 1700 {
        "plusacir;"@
    } else if index == 1701 {
        "plusb;"@
    } else if index == 1702 {
        "pluscir;"@
    } else if index == 1703 {
        "plusdo;"@
    } else if index == 1704 {
        "plusdu;"@
    } else if index == 1705 {
        "pluse;"@
    } else if index == 1706 {
        "plusmn"@
    } else if index == 1707 {
        "plusmn;"@
    } else if index == 1708 {
        "plussim;"@
    } else if index == 1709 {
        "plustwo;"@
    } else if index == 1710 {
        "pm;"@
    } else if index == 1711 {
        "pointint;"@
    } else if index == 1712 {
        "popf;"@
    } else if index == 1713 {
        "pound"@
    } else if index == 1714 {
        "pound;"@
    } else if index == 1715 {
        "pr;"@
    } else if index == 1716 {
        "prE;"@
    } else if index == 1717 {
        "prap;"@
    } else if index == 1718 {
        "prcue;"@
    } else if index == 1719 {
        "pre;"@
    } else if index == 1720 {
        "prec;"@
    } else if index == 1721 {
        "precapprox;"@
    } else if index == 1722 {
        "preccurlyeq;"@
    } else if index == 1723 {
        "preceq;"@
    } else if index == 1724 {
        "precnapprox;"@
    } else if index == 1725 {
        "precneqq;"@
    } else if index == 1726 {
        "precnsim;"@
    } else if index == 1727 {
        "precsim;"@
    } else {
        Seq::empty()
    }
}

/// The characters that the references 1664 to 1727 stand for.
#[verifier::opaque]
pub open spec fn texts_1664(index: int) -> Seq<char> {
    if index == 1664 {
        "\u{2134}"@
    } else if index == 1665 {
        "\u{F8}"@
    } else if index == 1666 {
        "\u{F8}"@
    } else if index == 1667 {
        "\u{2298}"@
    } else if index == 1668 {
        "\u{F5}"@
    } else if index == 1669 {
        "\u{F5}"@
    } else if index == 1670 {
        "\u{2297}"@
    } else if index == 1671 {
        "\u{2A36}"@
    } else if index == 1672 {
        "\u{F6}"@
    } else if index == 1673 {
        "\u{F6}"@
    } else if index == 1674 {
        "\u{233D}"@
    } else if index == 1675 {
        "\u{2225}"@
    } else if index == 1676 {
        "\u{B6}"@
    } else if index == 1677 {
        "\u{B6}"@
    } else if index == 1678 {
        "\u{2225}"@
    } else if index == 1679 {
        "\u{2AF3}"@
    } else if index == 1680 {
        "\u{2AFD}"@
    } else if index == 1681 {
        "\u{2202}"@
    } else if index == 1682 {
        "\u{43F}"@
    } else if index == 1683 {
        "\u{25}"@
    } else if index == 1684 {
        "\u{2E}"@
    } else if index == 1685 {
        "\u{2030}"@
    } else if index == 1686 {
        "\u{22A5}"@
    } else if index == 1687 {
        "\u{2031}"@
    } else if index == 1688 {
        "\u{1D52D}"@
    } else if index == 1689 {
        "\u{3C6}"@
    } else if index == 1690 {
        "\u{3D5}"@
    } else if index == 1691 {
        "\u{2133}"@
    } else if index == 1692 {
        "\u{260E}"@
    } else if index == 1693 {
        "\u{3C0}"@
    } else if index == 1694 {
        "\u{22D4}"@
    } else if index == 1695 {
        "\u{3D6}"@
    } else if index == 1696 {
        "\u{210F}"@
    } else if index == 1697 {
        "\u{210E}"@
    } else if index == 1698 {
        "\u{210F}"@
    } else if index == 1699 {
        "\u{2B}"@
    } else if index == 1700 {
        "\u{2A23}"@
    } else if index == 1701 {
        "\u{229E}"@
    } else if index == 1702 {
        "\u{2A22}"@
    } else if index == 1703 {
        "\u{2214}"@
    } else if index == 1704 {
        "\u{2A25}"@
    } else if index == 1705 {
        "\u{2A72}"@
    } else if index == 1706 {
        "\u{B1}"@
    } else if index == 1707 {
        "\u{B1}"@
    } else if index == 1708 {
        "\u{2A26}"@
    } else if index == 1709 {
        "\u{2A27}"@
    } else if index == 1710 {
        "\u{B1}"@
    } else if index == 1711 {
        "\u{2A15}"@
    } else if index == 1712 {
        "\u{1D561}"@
    } else if index == 1713 {
        "\u{A3}"@
    } else if index == 1714 {
        "\u{A3}"@
    } else if index == 1715 {
        "\u{227A}"@
    } else if index == 1716 {
        "\u{2AB3}"@
    } else if index == 1717 {
        "\u{2AB7}"@
    } else if index == 1718 {
        "\u{227C}"@
    } else if index == 1719 {
        "\u{2AAF}"@
    } else if index == 1720 {
        "\u{227A}"@
    } else if index == 1721 {
        "\u{2AB7}"@
    } else if index == 1722 {
        "\u{227C}"@
    } else if index == 1723 {
        "\u{2AAF}"@
    } else if index == 1724 {
        "\u{2AB9}"@
    } else if index == 1725 {
        "\u{2AB5}"@
    } else if index == 1726 {
        "\u{22E8}"@
    } else if index == 1727 {
        "\u{227E}"@
    } else {
        Seq::empty()
    }
}

/// The name of the reference `index` and the characters that it stands for.
pub fn entry_1664(index: usize) -> (r: (&'static str, &'static str))
    ensures
        r.0@ == names_1664(index as int),
        r.1@ == texts_1664(index as int),
{
    proof {
        reveal(names_1664);
        reveal(texts_1664);
        reveal_strlit("");
    }
    match index {
        1664 => ("oscr;", "\u{2134}"),
        1665 => ("oslash", "\u{F8}"),
        1666 => ("oslash;", "\u{F8}"),
        1667 => ("osol;", "\u{2298}"),
        1668 => ("otilde", "\u{F5}"),
        1669 => ("otilde;", "\u{F5}"),
        1670 => ("otimes;", "\u{2297}"),
        1671 => ("otimesas;", "\u{2A36}"),
        1672 => ("ouml", "\u{F6}"),
        1673 => ("ouml;", "\u{F6}"),
        1674 => ("ovbar;", "\u{233D}"),
        1675 => ("par;", "\u{2225}"),
        1676 => ("para", "\u{B6}"),
        1677 => ("para;", "\u{B6}"),
        1678 => ("parallel;", "\u{2225}"),
        1679 => ("parsim;", "\u{2AF3}"),
        1680 => ("parsl;", "\u{2AFD}"),
        1681 => ("part;", "\u{2202}"),
        1682 => ("pcy;", "\u{43F}"),
        1683 => ("percnt;", "\u{25}"),
        1684 => ("period;", "\u{2E}"),
        1685 => ("permil;", "\u{2030}"),
        1686 => ("perp;", "\u{22A5}"),
        1687 => ("pertenk;", "\u{2031}"),
        1688 => ("pfr;", "\u{1D52D}"),
        1689 => ("phi;", "\u{3C6}"),
        1690 => ("phiv;", "\u{3D5}"),
        1691 => ("phmmat;", "\u{2133}"),
        1692 => ("phone;", "\u{260E}"),
        1693 => ("pi;", "\u{3C0}"),
        1694 => ("pitchfork;", "\u{22D4}"),
        1695 => ("piv;", "\u{3D6}"),
        1696 => ("planck;", "\u{210F}"),
        1697 => ("planckh;", "\u{210E}"),
        1698 => ("plankv;", "\u{210F}"),
        1699 => ("plus;", "\u{2B}"),
        1700 => ("plusacir;", "\u{2A23}"),
        1701 => ("plusb;", "\u{229E}"),
        1702 => ("pluscir;", "\u{2A22}"),
        1703 => ("plusdo;", "\u{2214}"),
        1704 => ("plusdu;", "\u{2A25}"),
        1705 => ("pluse;", "\u{2A72}"),
        1706 => ("plusmn", "\u{B1}"),
        1707 => ("plusmn;", "\u{B1}"),
        1708 => ("plussim;", "\u{2A26}"),
        1709 => ("plustwo;", "\u{2A27}"),
        1710 => ("pm;", "\u{B1}"),
        1711 => ("pointint;", "\u{2A15}"),
        1712 => ("popf;", "\u{1D561}"),
        1713 => ("pound", "\u{A3}"),
        1714 => ("pound;", "\u{A3}"),
        1715 => ("pr;", "\u{227A}"),
        1716 => ("prE;", "\u{2AB3}"),
        1717 => ("prap;", "\u{2AB7}"),
        1718 => ("prcue;", "\u{227C}"),
        1719 => ("pre;", "\u{2AAF}"),
        1720 => ("prec;", "\u{227A}"),
        1721 => ("precapprox;", "\u{2AB7}"),
        1722 => ("preccurlyeq;", "\u{227C}"),
        1723 => ("preceq;", "\u{2AAF}"),
        1724 => ("precnapprox;", "\u{2AB9}"),
        1725 => ("precneqq;", "\u{2AB5}"),
        1726 => ("precnsim;", "\u{22E8}"),
        1727 => ("precsim;", "\u{227E}"),
        _ => ("", ""),
    }
}

/// The names of the references 1728 to 1791, from `&prime;` to `&rbrkslu;`.
#[verifier::opaque]
pub open spec fn names_1728(index: int) -> Seq<char> {
    if index == 1728 {
        "prime;"@
    } else if index == 1729 {
        "primes;"@
    } else if index == 1730 {
        "prnE;"@
    } else if index == 1731 {
        "prnap;"@
    } else if index == 1732 {
        "prnsim;"@
    } else if index == 1733 {
        "prod;"@
    } else if index == 1734 {
        "profalar;"@
    } else if index == 1735 {
        "profline;"@
    } else if index == 1736 {
        "profsurf;"@
    } else if index == 1737 {
        "prop;"@
    } else if index == 1738 {
        "propto;"@
    } else if index == 1739 {
        "prsim;"@
    } else if index == 1740 {
        "prurel;"@
    } else if index == 1741 {
        "pscr;"@
    } else if index == 1742 {
        "psi;"@
    } else if index == 1743 {
        "puncsp;"@
    } else if index == 1744 {
        "qfr;"@
    } else if index == 1745 {
        "qint;"@
    } else if index == 1746 {
        "qopf;"@
    } else if index == 1747 {
        "qprime;"@
    } else if index == 1748 {
        "qscr;"@
    } else if index == 1749 {
        "quaternions;"@
    } else if index == 1750 {
        "quatint;"@
    } else if index == 1751 {
        "quest;"@
    } else if index == 1752 {
        "questeq;"@
    } else if index == 1753 {
        "quot"@
    } else if index == 1754 {
        "quot;"@
    } else if index == 1755 {
        "rAarr;"@
    } else if index == 1756 {
        "rArr;"@
    } else if index == 1757 {
        "rAtail;"@
    } else if index == 1758 {
        "rBarr;"@
    } else if index == 1759 {
        "rHar;"@
    } else if index == 1760 {
        "race;"@
    } else if index == 1761 {
        "racute;"@
    } else if index == 1762 {
        "radic;"@
    } else if index == 1763 {
        "raemptyv;"@
    } else if index == 1764 {
        "rang;"@
    } else if index == 1765 {
        "rangd;"@
    } else if index == 1766 {
        "range;"@
    } else if index == 1767 {
        "rangle;"@
    } else if index == 1768 {
        "raquo"@
    } else if index == 1769 {
        "raquo;"@
    } else if index == 1770 {
        "rarr;"@
    } else if index == 1771 {
        "rarrap;"@
    } else if index == 1772 {
        "rarrb;"@
    } else if index == 1773 {
        "rarrbfs;"@
    } else if index == 1774 {
        "rarrc;"@
    } else if index == 1775 {
        "rarrfs;"@
    } else if index == 1776 {
        "rarrhk;"@
    } else if index == 1777 {
        "rarrlp;"@
    } else if index == 1778 {
        "rarrpl;"@
    } else if index == 1779 {
        "rarrsim;"@
    } else if index == 1780 {
        "rarrtl;"@
    } else if index == 1781 {
        "rarrw;"@
    } else if index == 1782 {
        "ratail;"@
    } else if index == 1783 {
        "ratio;"@
    } else if index == 1784 {
        "rationals;"@
    } else if index == 1785 {
        "rbarr;"@
    } else if index == 1786 {
        "rbbrk;"@
    } else if index == 1787 {
        "rbrace;"@
    } else if index == 1788 {
        "rbrack;"@
    } else if index == 1789 {
        "rbrke;"@
    } else if index == 1790 {
        "rbrksld;"@
    } else if index == 1791 {
        "rbrkslu;"@
    } else {
        Seq::empty()
    }
}

/// The characters that the references 1728 to 1791 stand for.
#[verifier::opaque]
pub open spec fn texts_1728(index: int) -> Seq<char> {
    if index == 1728 {
        "\u{2032}"@
    } else if index == 1729 {
        "\u{2119}"@
    } else if index == 1730 {
        "\u{2AB5}"@
    } else if index == 1731 {
        "\u{2AB9}"@
    } else if index == 1732 {
        "\u{22E8}"@
    } else if index == 1733 {
        "\u{220F}"@
    } else if index == 1734 {
        "\u{232E}"@
    } else if index == 1735 {
        "\u{2312}"@
    } else if index == 1736 {
        "\u{2313}"@
    } else if index == 1737 {
        "\u{221D}"@
    } else if index == 1738 {
        "\u{221D}"@
    } else if index == 1739 {
        "\u{227E}"@
    } else if index == 1740 {
        "\u{22B0}"@
    } else if index == 1741 {
        "\u{1D4C5}"@
    } else if index == 1742 {
        "\u{3C8}"@
    } else if index == 1743 {
        "\u{2008}"@
    } else if index == 1744 {
        "\u{1D52E}"@
    } else if index == 1745 {
        "\u{2A0C}"@
    } else if index == 1746 {
        "\u{1D562}"@
    } else if index == 1747 {
        "\u{2057}"@
    } else if index == 1748 {
        "\u{1D4C6}"@
    } else if index == 1749 {
        "\u{210D}"@
    } else if index == 1750 {
        "\u{2A16}"@
    } else if index == 1751 {
        "\u{3F}"@
    } else if index == 1752 {
        "\u{225F}"@
    } else if index == 1753 {
        "\u{22}"@
    } else if index == 1754 {
        "\u{22}"@
    } else if index == 1755 {
        "\u{21DB}"@
    } else if index == 1756 {
        "\u{21D2}"@
    } else if index == 1757 {
        "\u{291C}"@
    } else if index == 1758 {
        "\u{290F}"@
    } else if index == 1759 {
        "\u{2964}"@
    } else if index == 1760 {
        "\u{223D}\u{331}"@
    } else if index == 1761 {
        "\u{155}"@
    } else if index == 1762 {
        "\u{221A}"@
    } else if index == 1763 {
        "\u{29B3}"@
    } else if index == 1764 {
        "\u{27E9}"@
    } else if index == 1765 {
        "\u{2992}"@
    } else if index == 1766 {
        "\u{29A5}"@
    } else if index == 1767 {
        "\u{27E9}"@
    } else if index == 1768 {
        "\u{BB}"@
    } else if index == 1769 {
        "\u{BB}"@
    } else if index == 1770 {
        "\u{2192}"@
    } else if index == 1771 {
        "\u{2975}"@
    } else if index == 1772 {
        "\u{21E5}"@
    } else if index == 1773 {
        "\u{2920}"@
    } else if index == 1774 {
        "\u{2933}"@
    } else if index == 1775 {
        "\u{291E}"@
    } else if index == 1776 {
        "\u{21AA}"@
    } else if index == 1777 {
        "\u{21AC}"@
    } else if index == 1778 {
        "\u{2945}"@
    } else if index == 1779 {
        "\u{2974}"@
    } else if index == 1780 {
        "\u{21A3}"@
    } else if index == 1781 {
        "\u{219D}"@
    } else if index == 1782 {
        "\u{291A}"@
    } else if index == 1783 {
        "\u{2236}"@
    } else if index == 1784 {
        "\u{211A}"@
    } else if index == 1785 {
        "\u{290D}"@
    } else if index == 1786 {
        "\u{2773}"@
    } else if index == 1787 {
        "\u{7D}"@
    } else if index == 1788 {
        "\u{5D}"@
    } else if index == 1789 {
        "\u{298C}"@
    } else if index == 1790 {
        "\u{298E}"@
    } else if index == 1791 {
        "\u{2990}"@
    } else {
        Seq::empty()
    }
}

/// The name of the reference `index` and the characters that it stands for.
pub fn entry_1728(index: usize) -> (r: (&'static str, &'static str))
    ensures
        r.0@ == names_1728(index as int),
        r.1@ == texts_1728(index as int),
{
    proof {
        reveal(names_1728);
        reveal(texts_1728);
        reveal_strlit("");
    }
    match index {
        1728 => ("prime;", "\u{2032}"),
        1729 => ("primes;", "\u{2119}"),
        1730 => ("prnE;", "\u{2AB5}"),
        1731 => ("prnap;", "\u{2AB9}"),
        1732 => ("prnsim;", "\u{22E8}"),
        1733 => ("prod;", "\u{220F}"),
        1734 => ("profalar;", "\u{232E}"),
        1735 => ("profline;", "\u{2312}"),
        1736 => ("profsurf;", "\u{2313}"),
        1737 => ("prop;", "\u{221D}"),
        1738 => ("propto;", "\u{221D}"),
        1739 => ("prsim;", "\u{227E}"),
        1740 => ("prurel;", "\u{22B0}"),
        1741 => ("pscr;", "\u{1D4C5}"),
        1742 => ("psi;", "\u{3C8}"),
        1743 => ("puncsp;", "\u{2008}"),
        1744 => ("qfr;", "\u{1D52E}"),
        1745 => ("qint;", "\u{2A0C}"),
        1746 => ("qopf;", "\u{1D562}"),
        1747 => ("qprime;", "\u{2057}"),
        1748 => ("qscr;", "\u{1D4C6}"),
        1749 => ("quaternions;", "\u{210D}"),
        1750 => ("quatint;", "\u{2A16}"),
        1751 => ("quest;", "\u{3F}"),
        1752 => ("questeq;", "\u{225F}"),
        1753 => ("quot", "\u{22}"),
        1754 => ("quot;", "\u{22}"),
        1755 => ("rAarr;", "\u{21DB}"),
        1756 => ("rArr;", "\u{21D2}"),
        1757 => ("rAtail;", "\u{291C}"),
        1758 => ("rBarr;", "\u{290F}"),
        1759 => ("rHar;", "\u{2964}"),
        1760 => ("race;", "\u{223D}\u{331}"),
        1761 => ("racute;", "\u{155}"),
        1762 => ("radic;", "\u{221A}"),
        1763 => ("raemptyv;", "\u{29B3}"),
        1764 => ("rang;", "\u{27E9}"),
        1765 => ("rangd;", "\u{2992}"),
        1766 => ("range;", "\u{29A5}"),
        1767 => ("rangle;", "\u{27E9}"),
        1768 => ("raquo", "\u{BB}"),
        1769 => ("raquo;", "\u{BB}"),
        1770 => ("rarr;", "\u{2192}"),
        1771 => ("rarrap;", "\u{2975}"),
        1772 => ("rarrb;", "\u{21E5}"),
        1773 => ("rarrbfs;", "\u{2920}"),
        1774 => ("rarrc;", "\u{2933}"),
        1775 => ("rarrfs;", "\u{291E}"),
        1776 => ("rarrhk;", "\u{21AA}"),
        1777 => ("rarrlp;", "\u{21AC}"),
        1778 => ("rarrpl;", "\u{2945}"),
        1779 => ("rarrsim;", "\u{2974}"),
        1780 => ("rarrtl;", "\u{21A3}"),
        1781 => ("rarrw;", "\u{219D}"),
        1782 => ("ratail;", "\u{291A}"),
        1783 => ("ratio;", "\u{2236}"),
        1784 => ("rationals;", "\u{211A}"),
        1785 => ("rbarr;", "\u{290D}"),
        1786 => ("rbbrk;", "\u{2773}"),
        1787 => ("rbrace;", "\u{7D}"),
        1788 => ("rbrack;", "\u{5D}"),
        1789 => ("rbrke;", "\u{298C}"),
        1790 => ("rbrksld;", "\u{298E}"),
        1791 => ("rbrkslu;", "\u{2990}"),
        _ => ("", ""),
    }
}

} // verus!
