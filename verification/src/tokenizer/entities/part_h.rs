use vstd::prelude::*;

verus! {

/// The names of the references 1792 to 1855, from `&rcaron;` to `&rtrif;`.
#[verifier::opaque]
pub open spec fn names_1792(index: int) -> Seq<char> {
    if index == 1792 {
        "rcaron;"@
    } else if index == 1793 {
        "rcedil;"@
    } else if index == 1794 {
        "rceil;"@
    } else if index == 1795 {
        "rcub;"@
    } else if index == 1796 {
        "rcy;"@
    } else if index == 1797 {
        "rdca;"@
    } else if index == 1798 {
        "rdldhar;"@
    } else if index == 1799 {
        "rdquo;"@
    } else if index == 1800 {
        "rdquor;"@
    } else if index == 1801 {
        "rdsh;"@
    } else if index == 1802 {
        "real;"@
    } else if index == 1803 {
        "realine;"@
    } else if index == 1804 {
        "realpart;"@
    } else if index == 1805 {
        "reals;"@
    } else if index == 1806 {
        "rect;"@
    } else if index == 1807 {
        "reg"@
    } else if index == 1808 {
        "reg;"@
    } else if index == 1809 {
        "rfisht;"@
    } else if index == 1810 {
        "rfloor;"@
    } else if index == 1811 {
        "rfr;"@
    } else if index == 1812 {
        "rhard;"@
    } else if index == 1813 {
        "rharu;"@
    } else if index == 1814 {
        "rharul;"@
    } else if index == 1815 {
        "rho;"@
    } else if index == 1816 {
        "rhov;"@
    } else if index == 1817 {
        "rightarrow;"@
    } else if index == 1818 {
        "rightarrowtail;"@
    } else if index == 1819 {
        "rightharpoondown;"@
    } else if index == 1820 {
        "rightharpoonup;"@
    } else if index == 1821 {
        "rightleftarrows;"@
    } else if index == 1822 {
        "rightleftharpoons;"@
    } else if index == 1823 {
        "rightrightarrows;"@
    } else if index == 1824 {
        "rightsquigarrow;"@
    } else if index == 1825 {
        "rightthreetimes;"@
    } else if index == 1826 {
        "ring;"@
    } else if index == 1827 {
        "risingdotseq;"@
    } else if index == 1828 {
        "rlarr;"@
    } else if index == 1829 {
        "rlhar;"@
    } else if index == 1830 {
        "rlm;"@
    } else if index == 1831 {
        "rmoust;"@
    } else if index == 1832 {
        "rmoustache;"@
    } else if index == 1833 {
        "rnmid;"@
    } else if index == 1834 {
        "roang;"@
    } else if index == 1835 {
        "roarr;"@
    } else if index == 1836 {
        "robrk;"@
    } else if index == 1837 {
        "ropar;"@
    } else if index == 1838 {
        "ropf;"@
    } else if index == 1839 {
        "roplus;"@
    } else if index == 1840 {
        "rotimes;"@
    } else if index == 1841 {
        "rpar;"@
    } else if index == 1842 {
        "rpargt;"@
    } else if index == 1843 {
        "rppolint;"@
    } else if index == 1844 {
        "rrarr;"@
    } else if index == 1845 {
        "rsaquo;"@
    } else if index == 1846 {
        "rscr;"@
    } else if index == 1847 {
        "rsh;"@
    } else if index == 1848 {
        "rsqb;"@
    } else if index == 1849 {
        "rsquo;"@
    } else if index == 1850 {
        "rsquor;"@
    } else if index == 1851 {
        "rthree;"@
    } else if index == 1852 {
        "rtimes;"@
    } else if index == 1853 {
        "rtri;"@
    } else if index == 1854 {
        "rtrie;"@
    } else if index == 1855 {
        "rtrif;"@
    } else {
        Seq::empty()
    }
}

/// The characters that the references 1792 to 1855 stand for.
#[verifier::opaque]
pub open spec fn texts_1792(index: int) -> Seq<char> {
    if index == 1792 {
        "\u{159}"@
    } else if index == 1793 {
        "\u{157}"@
    } else if index == 1794 {
        "\u{2309}"@
    } else if index == 1795 {
        "\u{7D}"@
    } else if index == 1796 {
        "\u{440}"@
    } else if index == 1797 {
        "\u{2937}"@
    } else if index == 1798 {
        "\u{2969}"@
    } else if index == 1799 {
        "\u{201D}"@
    } else if index == 1800 {
        "\u{201D}"@
    } else if index == 1801 {
        "\u{21B3}"@
    } else if index == 1802 {
        "\u{211C}"@
    } else if index == 1803 {
        "\u{211B}"@
    } else if index == 1804 {
        "\u{211C}"@
    } else if index == 1805 {
        "\u{211D}"@
    } else if index == 1806 {
        "\u{25AD}"@
    } else if index == 1807 {
        "\u{AE}"@
    } else if index == 1808 {
        "\u{AE}"@
    } else if index == 1809 {
        "\u{297D}"@
    } else if index == 1810 {
        "\u{230B}"@
    } else if index == 1811 {
        "\u{1D52F}"@
    } else if index == 1812 {
        "\u{21C1}"@
    } else if index == 1813 {
        "\u{21C0}"@
    } else if index == 1814 {
        "\u{296C}"@
    } else if index == 1815 {
        "\u{3C1}"@
    } else if index == 1816 {
        "\u{3F1}"@
    } else if index == 1817 {
        "\u{2192}"@
    } else if index == 1818 {
        "\u{21A3}"@
    } else if index == 1819 {
        "\u{21C1}"@
    } else if index == 1820 {
        "\u{21C0}"@
    } else if index == 1821 {
        "\u{21C4}"@
    } else if index == 1822 {
        "\u{21CC}"@
    } else if index == 1823 {
        "\u{21C9}"@
    } else if index == 1824 {
        "\u{219D}"@
    } else if index == 1825 {
        "\u{22CC}"@
    } else if index == 1826 {
        "\u{2DA}"@
    } else if index == 1827 {
        "\u{2253}"@
    } else if index == 1828 {
        "\u{21C4}"@
    } else if index == 1829 {
        "\u{21CC}"@
    } else if index == 1830 {
        "\u{200F}"@
    } else if index == 1831 {
        "\u{23B1}"@
    } else if index == 1832 {
        "\u{23B1}"@
    } else if index == 1833 {
        "\u{2AEE}"@
    } else if index == 1834 {
        "\u{27ED}"@
    } else if index == 1835 {
        "\u{21FE}"@
    } else if index == 1836 {
        "\u{27E7}"@
    } else if index == 1837 {
        "\u{2986}"@
    } else if index == 1838 {
        "\u{1D563}"@
    } else if index == 1839 {
        "\u{2A2E}"@
    } else if index == 1840 {
        "\u{2A35}"@
    } else if index == 1841 {
        "\u{29}"@
    } else if index == 1842 {
        "\u{2994}"@
    } else if index == 1843 {
        "\u{2A12}"@
    } else if index == 1844 {
        "\u{21C9}"@
    } else if index == 1845 {
        "\u{203A}"@
    } else if index == 1846 {
        "\u{1D4C7}"@
    } else if index == 1847 {
        "\u{21B1}"@
    } else if index == 1848 {
        "\u{5D}"@
    } else if index == 1849 {
        "\u{2019}"@
    } else if index == 1850 {
        "\u{2019}"@
    } else if index == 1851 {
        "\u{22CC}"@
    } else if index == 1852 {
        "\u{22CA}"@
    } else if index == 1853 {
        "\u{25B9}"@
    } else if index == 1854 {
        "\u{22B5}"@
    } else if index == 1855 {
        "\u{25B8}"@
    } else {
        Seq::empty()
    }
}

/// The name of the reference `index` and the characters that it stands for.
pub fn entry_1792(index: usize) -> (r: (&'static str, &'static str))
    ensures
        r.0@ == names_1792(index as int),
        r.1@ == texts_1792(index as int),
{
    proof {
        reveal(names_1792);
        reveal(texts_1792);
        reveal_strlit("");
    }
    match index {
        1792 => ("rcaron;", "\u{159}"),
        1793 => ("rcedil;", "\u{157}"),
        1794 => ("rceil;", "\u{2309}"),
        1795 => ("rcub;", "\u{7D}"),
        1796 => ("rcy;", "\u{440}"),
        1797 => ("rdca;", "\u{2937}"),
        1798 => ("rdldhar;", "\u{2969}"),
        1799 => ("rdquo;", "\u{201D}"),
        1800 => ("rdquor;", "\u{201D}"),
        1801 => ("rdsh;", "\u{21B3}"),
        1802 => ("real;", "\u{211C}"),
        1803 => ("realine;", "\u{211B}"),
        1804 => ("realpart;", "\u{211C}"),
        1805 => ("reals;", "\u{211D}"),
        1806 => ("rect;", "\u{25AD}"),
        1807 => ("reg", "\u{AE}"),
        1808 => ("reg;", "\u{AE}"),
        1809 => ("rfisht;", "\u{297D}"),
        1810 => ("rfloor;", "\u{230B}"),
        1811 => ("rfr;", "\u{1D52F}"),
        1812 => ("rhard;", "\u{21C1}"),
        1813 => ("rharu;", "\u{21C0}"),
        1814 => ("rharul;", "\u{296C}"),
        1815 => ("rho;", "\u{3C1}"),
        1816 => ("rhov;", "\u{3F1}"),
        1817 => ("rightarrow;", "\u{2192}"),
        1818 => ("rightarrowtail;", "\u{21A3}"),
        1819 => ("rightharpoondown;", "\u{21C1}"),
        1820 => ("rightharpoonup;", "\u{21C0}"),
        1821 => ("rightleftarrows;", "\u{21C4}"),
        1822 => ("rightleftharpoons;", "\u{21CC}"),
        1823 => ("rightrightarrows;", "\u{21C9}"),
        1824 => ("rightsquigarrow;", "\u{219D}"),
        1825 => ("rightthreetimes;", "\u{22CC}"),
        1826 => ("ring;", "\u{2DA}"),
        1827 => ("risingdotseq;", "\u{2253}"),
        1828 => ("rlarr;", "\u{21C4}"),
        1829 => ("rlhar;", "\u{21CC}"),
        1830 => ("rlm;", "\u{200F}"),
        1831 => ("rmoust;", "\u{23B1}"),
        1832 => ("rmoustache;", "\u{23B1}"),
        1833 => ("rnmid;", "\u{2AEE}"),
        1834 => ("roang;", "\u{27ED}"),
        1835 => ("roarr;", "\u{21FE}"),
        1836 => ("robrk;", "\u{27E7}"),
        1837 => ("ropar;", "\u{2986}"),
        1838 => ("ropf;", "\u{1D563}"),
        1839 => ("roplus;", "\u{2A2E}"),
        1840 => ("rotimes;", "\u{2A35}"),
        1841 => ("rpar;", "\u{29}"),
        1842 => ("rpargt;", "\u{2994}"),
        1843 => ("rppolint;", "\u{2A12}"),
        1844 => ("rrarr;", "\u{21C9}"),
        1845 => ("rsaquo;", "\u{203A}"),
        1846 => ("rscr;", "\u{1D4C7}"),
        1847 => ("rsh;", "\u{21B1}"),
        1848 => ("rsqb;", "\u{5D}"),
        1849 => ("rsquo;", "\u{2019}"),
        1850 => ("rsquor;", "\u{2019}"),
        1851 => ("rthree;", "\u{22CC}"),
        1852 => ("rtimes;", "\u{22CA}"),
        1853 => ("rtri;", "\u{25B9}"),
        1854 => ("rtrie;", "\u{22B5}"),
        1855 => ("rtrif;", "\u{25B8}"),
        _ => ("", ""),
    }
}

/// The names of the references 1856 to 1919, from `&rtriltri;` to `&smte;`.
#[verifier::opaque]
pub open spec fn names_1856(index: int) -> Seq<char> {
    if index == 1856 {
        "rtriltri;"@
    } else if index == 1857 {
        "ruluhar;"@
    } else if index == 1858 {
        "rx;"@
    } else if index == 1859 {
        "sacute;"@
    } else if index == 1860 {
        "sbquo;"@
    } else if index == 1861 {
        "sc;"@
    } else if index == 1862 {
        "scE;"@
    } else if index == 1863 {
        "scap;"@
    } else if index == 1864 {
        "scaron;"@
    } else if index == 1865 {
        "sccue;"@
    } else if index == 1866 {
        "sce;"@
    } else if index == 1867 {
        "scedil;"@
    } else if index == 1868 {
        "scirc;"@
    } else if index == 1869 {
        "scnE;"@
    } else if index == 1870 {
        "scnap;"@
    } else if index == 1871 {
        "scnsim;"@
    } else if index == 1872 {
        "scpolint;"@
    } else if index == 1873 {
        "scsim;"@
    } else if index == 1874 {
        "scy;"@
    } else if index == 1875 {
        "sdot;"@
    } else if index == 1876 {
        "sdotb;"@
    } else if index == 1877 {
        "sdote;"@
    } else if index == 1878 {
        "seArr;"@
    } else if index == 1879 {
        "searhk;"@
    } else if index == 1880 {
        "searr;"@
    } else if index == 1881 {
        "searrow;"@
    } else if index == 1882 {
        "sect"@
    } else if index == 1883 {
        "sect;"@
    } else if index == 1884 {
        "semi;"@
    } else if index == 1885 {
        "seswar;"@
    } else if index == 1886 {
        "setminus;"@
    } else if index == 1887 {
        "setmn;"@
    } else if index == 1888 {
        "sext;"@
    } else if index == 1889 {
        "sfr;"@
    } else if index == 1890 {
        "sfrown;"@
    } else if index == 1891 {
        "sharp;"@
    } else if index == 1892 {
        "shchcy;"@
    } else if index == 1893 {
        "shcy;"@
    } else if index == 1894 {
        "shortmid;"@
    } else if index == 1895 {
        "shortparallel;"@
    } else if index == 1896 {
        "shy"@
    } else if index == 1897 {
        "shy;"@
    } else if index == 1898 {
        "sigma;"@
    } else if index == 1899 {
        "sigmaf;"@
    } else if index == 1900 {
        "sigmav;"@
    } else if index == 1901 {
        "sim;"@
    } else if index == 1902 {
        "simdot;"@
    } else if index == 1903 {
        "sime;"@
    } else if index == 1904 {
        "simeq;"@
    } else if index == 1905 {
        "simg;"@
    } else if index == 1906 {
        "simgE;"@
    } else if index == 1907 {
        "siml;"@
    } else if index == 1908 {
        "simlE;"@
    } else if index == 1909 {
        "simne;"@
    } else if index == 1910 {
        "simplus;"@
    } else if index == 1911 {
        "simrarr;"@
    } else if index == 1912 {
        "slarr;"@
    } else if index == 1913 {
        "smallsetminus;"@
    } else if index == 1914 {
        "smashp;"@
    } else if index == 1915 {
        "smeparsl;"@
    } else if index == 1916 {
        "smid;"@
    } else if index == 1917 {
        "smile;"@
    } else if index == 1918 {
        "smt;"@
    } else if index == 1919 {
        "smte;"@
    } else {
        Seq::empty()
    }
}

/// The characters that the references 1856 to 1919 stand for.
#[verifier::opaque]
pub open spec fn texts_1856(index: int) -> Seq<char> {
    if index == 1856 {
        "\u{29CE}"@
    } else if index == 1857 {
        "\u{2968}"@
    } else if index == 1858 {
        "\u{211E}"@
    } else if index == 1859 {
        "\u{15B}"@
    } else if index == 1860 {
        "\u{201A}"@
    } else if index == 1861 {
        "\u{227B}"@
    } else if index == 1862 {
        "\u{2AB4}"@
    } else if index == 1863 {
        "\u{2AB8}"@
    } else if index == 1864 {
        "\u{161}"@
    } else if index == 1865 {
        "\u{227D}"@
    } else if index == 1866 {
        "\u{2AB0}"@
    } else if index == 1867 {
        "\u{15F}"@
    } else if index == 1868 {
        "\u{15D}"@
    } else if index == 1869 {
        "\u{2AB6}"@
    } else if index == 1870 {
        "\u{2ABA}"@
    } else if index == 1871 {
        "\u{22E9}"@
    } else if index == 1872 {
        "\u{2A13}"@
    } else if index == 1873 {
        "\u{227F}"@
    } else if index == 1874 {
        "\u{441}"@
    } else if index == 1875 {
        "\u{22C5}"@
    } else if index == 1876 {
        "\u{22A1}"@
    } else if index == 1877 {
        "\u{2A66}"@
    } else if index == 1878 {
        "\u{21D8}"@
    } else if index == 1879 {
        "\u{2925}"@
    } else if index == 1880 {
        "\u{2198}"@
    } else if index == 1881 {
        "\u{2198}"@
    } else if index == 1882 {
        "\u{A7}"@
    } else if index == 1883 {
        "\u{A7}"@
    } else if index == 1884 {
        "\u{3B}"@
    } else if index == 1885 {
        "\u{2929}"@
    } else if index == 1886 {
        "\u{2216}"@
    } else if index == 1887 {
        "\u{2216}"@
    } else if index == 1888 {
        "\u{2736}"@
    } else if index == 1889 {
        "\u{1D530}"@
    } else if index == 1890 {
        "\u{2322}"@
    } else if index == 1891 {
        "\u{266F}"@
    } else if index == 1892 {
        "\u{449}"@
    } else if index == 1893 {
        "\u{448}"@
    } else if index == 1894 {
        "\u{2223}"@
    } else if index == 1895 {
        "\u{2225}"@
    } else if index == 1896 {
        "\u{AD}"@
    } else if index == 1897 {
        "\u{AD}"@
    } else if index == 1898 {
        "\u{3C3}"@
    } else if index == 1899 {
        "\u{3C2}"@
    } else if index == 1900 {
        "\u{3C2}"@
    } else if index == 1901 {
        "\u{223C}"@
    } else if index == 1902 {
        "\u{2A6A}"@
    } else if index == 1903 {
        "\u{2243}"@
    } else if index == 1904 {
        "\u{2243}"@
    } else if index == 1905 {
        "\u{2A9E}"@
    } else if index == 1906 {
        "\u{2AA0}"@
    } else if index == 1907 {
        "\u{2A9D}"@
    } else if index == 1908 {
        "\u{2A9F}"@
    } else if index == 1909 {
        "\u{2246}"@
    } else if index == 1910 {
        "\u{2A24}"@
    } else if index == 1911 {
        "\u{2972}"@
    } else if index == 1912 {
        "\u{2190}"@
    } else if index == 1913 {
        "\u{2216}"@
    } else if index == 1914 {
        "\u{2A33}"@
    } else if index == 1915 {
        "\u{29E4}"@
    } else if index == 1916 {
        "\u{2223}"@
    } else if index == 1917 {
        "\u{2323}"@
    } else if index == 1918 {
        "\u{2AAA}"@
    } else if index == 1919 {
        "\u{2AAC}"@
    } else {
        Seq::empty()
    }
}

/// The name of the reference `index` and the characters that it stands for.
pub fn entry_1856(index: usize) -> (r: (&'static str, &'static str))
    ensures
        r.0@ == names_1856(index as int),
        r.1@ == texts_1856(index as int),
{
    proof {
        reveal(names_1856);
        reveal(texts_1856);
        reveal_strlit("");
    }
    match index {
        1856 => ("rtriltri;", "\u{29CE}"),
        1857 => ("ruluhar;", "\u{2968}"),
        1858 => ("rx;", "\u{211E}"),
        1859 => ("sacute;", "\u{15B}"),
        1860 => ("sbquo;", "\u{201A}"),
        1861 => ("sc;", "\u{227B}"),
        1862 => ("scE;", "\u{2AB4}"),
        1863 => ("scap;", "\u{2AB8}"),
        1864 => ("scaron;", "\u{161}"),
        1865 => ("sccue;", "\u{227D}"),
        1866 => ("sce;", "\u{2AB0}"),
        1867 => ("scedil;", "\u{15F}"),
        1868 => ("scirc;", "\u{15D}"),
        1869 => ("scnE;", "\u{2AB6}"),
        1870 => ("scnap;", "\u{2ABA}"),
        1871 => ("scnsim;", "\u{22E9}"),
        1872 => ("scpolint;", "\u{2A13}"),
        1873 => ("scsim;", "\u{227F}"),
        1874 => ("scy;", "\u{441}"),
        1875 => ("sdot;", "\u{22C5}"),
        1876 => ("sdotb;", "\u{22A1}"),
        1877 => ("sdote;", "\u{2A66}"),
        1878 => ("seArr;", "\u{21D8}"),
        1879 => ("searhk;", "\u{2925}"),
        1880 => ("searr;", "\u{2198}"),
        1881 => ("searrow;", "\u{2198}"),
        1882 => ("sect", "\u{A7}"),
        1883 => ("sect;", "\u{A7}"),
        1884 => ("semi;", "\u{3B}"),
        1885 => ("seswar;", "\u{2929}"),
        1886 => ("setminus;", "\u{2216}"),
        1887 => ("setmn;", "\u{2216}"),
        1888 => ("sext;", "\u{2736}"),
        1889 => ("sfr;", "\u{1D530}"),
        1890 => ("sfrown;", "\u{2322}"),
        1891 => ("sharp;", "\u{266F}"),
        1892 => ("shchcy;", "\u{449}"),
        1893 => ("shcy;", "\u{448}"),
        1894 => ("shortmid;", "\u{2223}"),
        1895 => ("shortparallel;", "\u{2225}"),
        1896 => ("shy", "\u{AD}"),
        1897 => ("shy;", "\u{AD}"),
        1898 => ("sigma;", "\u{3C3}"),
        1899 => ("sigmaf;", "\u{3C2}"),
        1900 => ("sigmav;", "\u{3C2}"),
        1901 => ("sim;", "\u{223C}"),
        1902 => ("simdot;", "\u{2A6A}"),
        1903 => ("sime;", "\u{2243}"),
        1904 => ("simeq;", "\u{2243}"),
        1905 => ("simg;", "\u{2A9E}"),
        1906 => ("simgE;", "\u{2AA0}"),
        1907 => ("siml;", "\u{2A9D}"),
        1908 => ("simlE;", "\u{2A9F}"),
        1909 => ("simne;", "\u{2246}"),
        1910 => ("simplus;", "\u{2A24}"),
        1911 => ("simrarr;", "\u{2972}"),
        1912 => ("slarr;", "\u{2190}"),
        1913 => ("smallsetminus;", "\u{2216}"),
        1914 => ("smashp;", "\u{2A33}"),
        1915 => ("smeparsl;", "\u{29E4}"),
        1916 => ("smid;", "\u{2223}"),
        1917 => ("smile;", "\u{2323}"),
        1918 => ("smt;", "\u{2AAA}"),
        1919 => ("smte;", "\u{2AAC}"),
        _ => ("", ""),
    }
}

/// The names of the references 1920 to 1983, from `&smtes;` to `&sup1`.
#[verifier::opaque]
pub open spec fn names_1920(index: int) -> Seq<char> {
    if index == 1920 {
        "smtes;"@
    } else if index == 1921 {
        "softcy;"@
    } else if index == 1922 {
        "sol;"@
    } else if index == 1923 {
        "solb;"@
    } else if index == 1924 {
        "solbar;"@
    } else if index == 1925 {
        "sopf;"@
    } else if index == 1926 {
        "spades;"@
    } else if index == 1927 {
        "spadesuit;"@
    } else if index == 1928 {
        "spar;"@
    } else if index == 1929 {
        "sqcap;"@
    } else if index == 1930 {
        "sqcaps;"@
    } else if index == 1931 {
        "sqcup;"@
    } else if index == 1932 {
        "sqcups;"@
    } else if index == 1933 {
        "sqsub;"@
    } else if index == 1934 {
        "sqsube;"@
    } else if index == 1935 {
        "sqsubset;"@
    } else if index == 1936 {
        "sqsubseteq;"@
    } else if index == 1937 {
        "sqsup;"@
    } else if index == 1938 {
        "sqsupe;"@
    } else if index == 1939 {
        "sqsupset;"@
    } else if index == 1940 {
        "sqsupseteq;"@
    } else if index == 1941 {
        "squ;"@
    } else if index == 1942 {
        "square;"@
    } else if index == 1943 {
        "squarf;"@
    } else if index == 1944 {
        "squf;"@
    } else if index == 1945 {
        "srarr;"@
    } else if index == 1946 {
        "sscr;"@
    } else if index == 1947 {
        "ssetmn;"@
    } else if index == 1948 {
        "ssmile;"@
    } else if index == 1949 {
        "sstarf;"@
    } else if index == 1950 {
        "star;"@
    } else if index == 1951 {
        "starf;"@
    } else if index == 1952 {
        "straightepsilon;"@
    } else if index == 1953 {
        "straightphi;"@
    } else if index == 1954 {
        "strns;"@
    } else if index == 1955 {
        "sub;"@
    } else if index == 1956 {
        "subE;"@
    } else if index == 1957 {
        "subdot;"@
    } else if index == 1958 {
        "sube;"@
    } else if index == 1959 {
        "subedot;"@
    } else if index == 1960 {
        "submult;"@
    } else if index == 1961 {
        "subnE;"@
    } else if index == 1962 {
        "subne;"@
    } else if index == 1963 {
        "subplus;"@
    } else if index == 1964 {
        "subrarr;"@
    } else if index == 1965 {
        "subset;"@
    } else if index == 1966 {
        "subseteq;"@
    } else if index == 1967 {
        "subseteqq;"@
    } else if index == 1968 {
        "subsetneq;"@
    } else if index == 1969 {
        "subsetneqq;"@
    } else if index == 1970 {
        "subsim;"@
    } else if index == 1971 {
        "subsub;"@
    } else if index == 1972 {
        "subsup;"@
    } else if index == 1973 {
        "succ;"@
    } else if index == 1974 {
        "succapprox;"@
    } else if index == 1975 {
        "succcurlyeq;"@
    } else if index == 1976 {
        "succeq;"@
    } else if index == 1977 {
        "succnapprox;"@
    } else if index == 1978 {
        "succneqq;"@
    } else if index == 1979 {
        "succnsim;"@
    } else if index == 1980 {
        "succsim;"@
    } else if index == 1981 {
        "sum;"@
    } else if index == 1982 {
        "sung;"@
    } else if index == 1983 {
        "sup1"@
    } else {
        Seq::empty()
    }
}

/// The characters that the references 1920 to 1983 stand for.
#[verifier::opaque]
pub open spec fn texts_1920(index: int) -> Seq<char> {
    if index == 1920 {
        "\u{2AAC}\u{FE00}"@
    } else if index == 1921 {
        "\u{44C}"@
    } else if index == 1922 {
        "\u{2F}"@
    } else if index == 1923 {
        "\u{29C4}"@
    } else if index == 1924 {
        "\u{233F}"@
    } else if index == 1925 {
        "\u{1D564}"@
    } else if index == 1926 {
        "\u{2660}"@
    } else if index == 1927 {
        "\u{2660}"@
    } else if index == 1928 {
        "\u{2225}"@
    } else if index == 1929 {
        "\u{2293}"@
    } else if index == 1930 {
        "\u{2293}\u{FE00}"@
    } else if index == 1931 {
        "\u{2294}"@
    } else if index == 1932 {
        "\u{2294}\u{FE00}"@
    } else if index == 1933 {
        "\u{228F}"@
    } else if index == 1934 {
        "\u{2291}"@
    } else if index == 1935 {
        "\u{228F}"@
    } else if index == 1936 {
        "\u{2291}"@
    } else if index == 1937 {
        "\u{2290}"@
    } else if index == 1938 {
        "\u{2292}"@
    } else if index == 1939 {
        "\u{2290}"@
    } else if index == 1940 {
        "\u{2292}"@
    } else if index == 1941 {
        "\u{25A1}"@
    } else if index == 1942 {
        "\u{25A1}"@
    } else if index == 1943 {
        "\u{25AA}"@
    } else if index == 1944 {
        "\u{25AA}"@
    } else if index == 1945 {
        "\u{2192}"@
    } else if index == 1946 {
        "\u{1D4C8}"@
    } else if index == 1947 {
        "\u{2216}"@
    } else if index == 1948 {
        "\u{2323}"@
    } else if index == 1949 {
        "\u{22C6}"@
    } else if index == 1950 {
        "\u{2606}"@
    } else if index == 1951 {
        "\u{2605}"@
    } else if index == 1952 {
        "\u{3F5}"@
    } else if index == 1953 {
        "\u{3D5}"@
    } else if index == 1954 {
        "\u{AF}"@
    } else if index == 1955 {
        "\u{2282}"@
    } else if index == 1956 {
        "\u{2AC5}"@
    } else if index == 1957 {
        "\u{2ABD}"@
    } else if index == 1958 {
        "\u{2286}"@
    } else if index == 1959 {
        "\u{2AC3}"@
    } else if index == 1960 {
        "\u{2AC1}"@
    } else if index == 1961 {
        "\u{2ACB}"@
    } else if index == 1962 {
        "\u{228A}"@
    } else if index == 1963 {
        "\u{2ABF}"@
    } else if index == 1964 {
        "\u{2979}"@
    } else if index == 1965 {
        "\u{2282}"@
    } else if index == 1966 {
        "\u{2286}"@
    } else if index == 1967 {
        "\u{2AC5}"@
    } else if index == 1968 {
        "\u{228A}"@
    } else if index == 1969 {
        "\u{2ACB}"@
    } else if index == 1970 {
        "\u{2AC7}"@
    } else if index == 1971 {
        "\u{2AD5}"@
    } else if index == 1972 {
        "\u{2AD3}"@
    } else if index == 1973 {
        "\u{227B}"@
    } else if index == 1974 {
        "\u{2AB8}"@
    } else if index == 1975 {
        "\u{227D}"@
    } else if index == 1976 {
        "\u{2AB0}"@
    } else if index == 1977 {
        "\u{2ABA}"@
    } else if index == 1978 {
        "\u{2AB6}"@
    } else if index == 1979 {
        "\u{22E9}"@
    } else if index == 1980 {
        "\u{227F}"@
    } else if index == 1981 {
        "\u{2211}"@
    } else if index == 1982 {
        "\u{266A}"@
    } else if index == 1983 {
        "\u{B9}"@
    } else {
        Seq::empty()
    }
}

/// The name of the reference `index` and the characters that it stands for.
pub fn entry_1920(index: usize) -> (r: (&'static str, &'static str))
    ensures
        r.0@ == names_1920(index as int),
        r.1@ == texts_1920(index as int),
{
    proof {
        reveal(names_1920);
        reveal(texts_1920);
        reveal_strlit("");
    }
    match index {
        1920 => ("smtes;", "\u{2AAC}\u{FE00}"),
        1921 => ("softcy;", "\u{44C}"),
        1922 => ("sol;", "\u{2F}"),
        1923 => ("solb;", "\u{29C4}"),
        1924 => ("solbar;", "\u{233F}"),
        1925 => ("sopf;", "\u{1D564}"),
        1926 => ("spades;", "\u{2660}"),
        1927 => ("spadesuit;", "\u{2660}"),
        1928 => ("spar;", "\u{2225}"),
        1929 => ("sqcap;", "\u{2293}"),
        1930 => ("sqcaps;", "\u{2293}\u{FE00}"),
        1931 => ("sqcup;", "\u{2294}"),
        1932 => ("sqcups;", "\u{2294}\u{FE00}"),
        1933 => ("sqsub;", "\u{228F}"),
        1934 => ("sqsube;", "\u{2291}"),
        1935 => ("sqsubset;", "\u{228F}"),
        1936 => ("sqsubseteq;", "\u{2291}"),
        1937 => ("sqsup;", "\u{2290}"),
        1938 => ("sqsupe;", "\u{2292}"),
        1939 => ("sqsupset;", "\u{2290}"),
        1940 => ("sqsupseteq;", "\u{2292}"),
        1941 => ("squ;", "\u{25A1}"),
        1942 => ("square;", "\u{25A1}"),
        1943 => ("squarf;", "\u{25AA}"),
        1944 => ("squf;", "\u{25AA}"),
        1945 => ("srarr;", "\u{2192}"),
        1946 => ("sscr;", "\u{1D4C8}"),
        1947 => ("ssetmn;", "\u{2216}"),
        1948 => ("ssmile;", "\u{2323}"),
        1949 => ("sstarf;", "\u{22C6}"),
        1950 => ("star;", "\u{2606}"),
        1951 => ("starf;", "\u{2605}"),
        1952 => ("straightepsilon;", "\u{3F5}"),
        1953 => ("straightphi;", "\u{3D5}"),
        1954 => ("strns;", "\u{AF}"),
        1955 => ("sub;", "\u{2282}"),
        1956 => ("subE;", "\u{2AC5}"),
        1957 => ("subdot;", "\u{2ABD}"),
        1958 => ("sube;", "\u{2286}"),
        1959 => ("subedot;", "\u{2AC3}"),
        1960 => ("submult;", "\u{2AC1}"),
        1961 => ("subnE;", "\u{2ACB}"),
        1962 => ("subne;", "\u{228A}"),
        1963 => ("subplus;", "\u{2ABF}"),
        1964 => ("subrarr;", "\u{2979}"),
        1965 => ("subset;", "\u{2282}"),
        1966 => ("subseteq;", "\u{2286}"),
        1967 => ("subseteqq;", "\u{2AC5}"),
        1968 => ("subsetneq;", "\u{228A}"),
        1969 => ("subsetneqq;", "\u{2ACB}"),
        1970 => ("subsim;", "\u{2AC7}"),
        1971 => ("subsub;", "\u{2AD5}"),
        1972 => ("subsup;", "\u{2AD3}"),
        1973 => ("succ;", "\u{227B}"),
        1974 => ("succapprox;", "\u{2AB8}"),
        1975 => ("succcurlyeq;", "\u{227D}"),
        1976 => ("succeq;", "\u{2AB0}"),
        1977 => ("succnapprox;", "\u{2ABA}"),
        1978 => ("succneqq;", "\u{2AB6}"),
        1979 => ("succnsim;", "\u{22E9}"),
        1980 => ("succsim;", "\u{227F}"),
        1981 => ("sum;", "\u{2211}"),
        1982 => ("sung;", "\u{266A}"),
        1983 => ("sup1", "\u{B9}"),
        _ => ("", ""),
    }
}

/// The names of the references 1984 to 2047, from `&sup1;` to `&topbot;`.
#[verifier::opaque]
pub open spec fn names_1984(index: int) -> Seq<char> {
    if index == 1984 {
        "sup1;"@
    } else if index == 1985 {
        "sup2"@
    } else if index == 1986 {
        "sup2;"@
    } else if index == 1987 {
        "sup3"@
    } else if index == 1988 {
        "sup3;"@
    } else if index == 1989 {
        "sup;"@
    } else if index == 1990 {
        "supE;"@
    } else if index == 1991 {
        "supdot;"@
    } else if index == 1992 {
        "supdsub;"@
    } else if index == 1993 {
        "supe;"@
    } else if index == 1994 {
        "supedot;"@
    } else if index == 1995 {
        "suphsol;"@
    } else if index == 1996 {
        "suphsub;"@
    } else if index == 1997 {
        "suplarr;"@
    } else if index == 1998 {
        "supmult;"@
    } else if index == 1999 {
        "supnE;"@
    } else if index == 2000 {
        "supne;"@
    } else if index == 2001 {
        "supplus;"@
    } else if index == 2002 {
        "supset;"@
    } else if index == 2003 {
        "supseteq;"@
    } else if index == 2004 {
        "supseteqq;"@
    } else if index == 2005 {
        "supsetneq;"@
    } else if index == 2006 {
        "supsetneqq;"@
    } else if index == 2007 {
        "supsim;"@
    } else if index == 2008 {
        "supsub;"@
    } else if index == 2009 {
        "supsup;"@
    } else if index == 2010 {
        "swArr;"@
    } else if index == 2011 {
        "swarhk;"@
    } else if index == 2012 {
        "swarr;"@
    } else if index == 2013 {
        "swarrow;"@
    } else if index == 2014 {
        "swnwar;"@
    } else if index == 2015 {
        "szlig"@
    } else if index == 2016 {
        "szlig;"@
    } else if index == 2017 {
        "target;"@
    } else if index == 2018 {
        "tau;"@
    } else if index == 2019 {
        "tbrk;"@
    } else if index == 2020 {
        "tcaron;"@
    } else if index == 2021 {
        "tcedil;"@
    } else if index == 2022 {
        "tcy;"@
    } else if index == 2023 {
        "tdot;"@
    } else if index == 2024 {
        "telrec;"@
    } else if index == 2025 {
        "tfr;"@
    } else if index == 2026 {
        "there4;"@
    } else if index == 2027 {
        "therefore;"@
    } else if index == 2028 {
        "theta;"@
    } else if index == 2029 {
        "thetasym;"@
    } else if index == 2030 {
        "thetav;"@
    } else if index == 2031 {
        "thickapprox;"@
    } else if index == 2032 {
        "thicksim;"@
    } else if index == 2033 {
        "thinsp;"@
    } else if index == 2034 {
        "thkap;"@
    } else if index == 2035 {
        "thksim;"@
    } else if index == 2036 {
        "thorn"@
    } else if index == 2037 {
        "thorn;"@
    } else if index == 2038 {
        "tilde;"@
    } else if index == 2039 {
        "times"@
    } else if index == 2040 {
        "times;"@
    } else if index == 2041 {
        "timesb;"@
    } else if index == 2042 {
        "timesbar;"@
    } else if index == 2043 {
        "timesd;"@
    } else if index == 2044 {
        "tint;"@
    } else if index == 2045 {
        "toea;"@
    } else if index == 2046 {
        "top;"@
    } else if index == 2047 {
        "topbot;"@
    } else {
        Seq::empty()
    }
}

/// The characters that the references 1984 to 2047 stand for.
#[verifier::opaque]
pub open spec fn texts_1984(index: int) -> Seq<char> {
    if index == 1984 {
        "\u{B9}"@
    } else if index == 1985 {
        "\u{B2}"@
    } else if index == 1986 {
        "\u{B2}"@
    } else if index == 1987 {
        "\u{B3}"@
    } else if index == 1988 {
        "\u{B3}"@
    } else if index == 1989 {
        "\u{2283}"@
    } else if index == 1990 {
        "\u{2AC6}"@
    } else if index == 1991 {
        "\u{2ABE}"@
    } else if index == 1992 {
        "\u{2AD8}"@
    } else if index == 1993 {
        "\u{2287}"@
    } else if index == 1994 {
        "\u{2AC4}"@
    } else if index == 1995 {
        "\u{27C9}"@
    } else if index == 1996 {
        "\u{2AD7}"@
    } else if index == 1997 {
        "\u{297B}"@
    } else if index == 1998 {
        "\u{2AC2}"@
    } else if index == 1999 {
        "\u{2ACC}"@
    } else if index == 2000 {
        "\u{228B}"@
    } else if index == 2001 {
        "\u{2AC0}"@
    } else if index == 2002 {
        "\u{2283}"@
    } else if index == 2003 {
        "\u{2287}"@
    } else if index == 2004 {
        "\u{2AC6}"@
    } else if index == 2005 {
        "\u{228B}"@
    } else if index == 2006 {
        "\u{2ACC}"@
    } else if index == 2007 {
        "\u{2AC8}"@
    } else if index == 2008 {
        "\u{2AD4}"@
    } else if index == 2009 {
        "\u{2AD6}"@
    } else if index == 2010 {
        "\u{21D9}"@
    } else if index == 2011 {
        "\u{2926}"@
    } else if index == 2012 {
        "\u{2199}"@
    } else if index == 2013 {
        "\u{2199}"@
    } else if index == 2014 {
        "\u{292A}"@
    } else if index == 2015 {
        "\u{DF}"@
    } else if index == 2016 {
        "\u{DF}"@
    } else if index == 2017 {
        "\u{2316}"@
    } else if index == 2018 {
        "\u{3C4}"@
    } else if index == 2019 {
        "\u{23B4}"@
    } else if index == 2020 {
        "\u{165}"@
    } else if index == 2021 {
        "\u{163}"@
    } else if index == 2022 {
        "\u{442}"@
    } else if index == 2023 {
        "\u{20DB}"@
    } else if index == 2024 {
        "\u{2315}"@
    } else if index == 2025 {
        "\u{1D531}"@
    } else if index == 2026 {
        "\u{2234}"@
    } else if index == 2027 {
        "\u{2234}"@
    } else if index == 2028 {
        "\u{3B8}"@
    } else if index == 2029 {
        "\u{3D1}"@
    } else if index == 2030 {
        "\u{3D1}"@
    } else if index == 2031 {
        "\u{2248}"@
    } else if index == 2032 {
        "\u{223C}"@
    } else if index == 2033 {
        "\u{2009}"@
    } else if index == 2034 {
        "\u{2248}"@
    } else if index == 2035 {
        "\u{223C}"@
    } else if index == 2036 {
        "\u{FE}"@
    } else if index == 2037 {
        "\u{FE}"@
    } else if index == 2038 {
        "\u{2DC}"@
    } else if index == 2039 {
        "\u{D7}"@
    } else if index == 2040 {
        "\u{D7}"@
    } else if index == 2041 {
        "\u{22A0}"@
    } else if index == 2042 {
        "\u{2A31}"@
    } else if index == 2043 {
        "\u{2A30}"@
    } else if index == 2044 {
        "\u{222D}"@
    } else if index == 2045 {
        "\u{2928}"@
    } else if index == 2046 {
        "\u{22A4}"@
    } else if index == 2047 {
        "\u{2336}"@
    } else {
        Seq::empty()
    }
}

/// The name of the reference `index` and the characters that it stands for.
pub fn entry_1984(index: usize) -> (r: (&'static str, &'static str))
    ensures
        r.0@ == names_1984(index as int),
        r.1@ == texts_1984(index as int),
{
    proof {
        reveal(names_1984);
        reveal(texts_1984);
        reveal_strlit("");
    }
    match index {
        1984 => ("sup1;", "\u{B9}"),
        1985 => ("sup2", "\u{B2}"),
        1986 => ("sup2;", "\u{B2}"),
        1987 => ("sup3", "\u{B3}"),
        1988 => ("sup3;", "\u{B3}"),
        1989 => ("sup;", "\u{2283}"),
        1990 => ("supE;", "\u{2AC6}"),
        1991 => ("supdot;", "\u{2ABE}"),
        1992 => ("supdsub;", "\u{2AD8}"),
        1993 => ("supe;", "\u{2287}"),
        1994 => ("supedot;", "\u{2AC4}"),
        1995 => ("suphsol;", "\u{27C9}"),
        1996 => ("suphsub;", "\u{2AD7}"),
        1997 => ("suplarr;", "\u{297B}"),
        1998 => ("supmult;", "\u{2AC2}"),
        1999 => ("supnE;", "\u{2ACC}"),
        2000 => ("supne;", "\u{228B}"),
        2001 => ("supplus;", "\u{2AC0}"),
        2002 => ("supset;", "\u{2283}"),
        2003 => ("supseteq;", "\u{2287}"),
        2004 => ("supseteqq;", "\u{2AC6}"),
        2005 => ("supsetneq;", "\u{228B}"),
        2006 => ("supsetneqq;", "\u{2ACC}"),
        2007 => ("supsim;", "\u{2AC8}"),
        2008 => ("supsub;", "\u{2AD4}"),
        2009 => ("supsup;", "\u{2AD6}"),
        2010 => ("swArr;", "\u{21D9}"),
        2011 => ("swarhk;", "\u{2926}"),
        2012 => ("swarr;", "\u{2199}"),
        2013 => ("swarrow;", "\u{2199}"),
        2014 => ("swnwar;", "\u{292A}"),
        2015 => ("szlig", "\u{DF}"),
        2016 => ("szlig;", "\u{DF}"),
        2017 => ("target;", "\u{2316}"),
        2018 => ("tau;", "\u{3C4}"),
        2019 => ("tbrk;", "\u{23B4}"),
        2020 => ("tcaron;", "\u{165}"),
        2021 => ("tcedil;", "\u{163}"),
        2022 => ("tcy;", "\u{442}"),
        2023 => ("tdot;", "\u{20DB}"),
        2024 => ("telrec;", "\u{2315}"),
        2025 => ("tfr;", "\u{1D531}"),
        2026 => ("there4;", "\u{2234}"),
        2027 => ("therefore;", "\u{2234}"),
        2028 => ("theta;", "\u{3B8}"),
        2029 => ("thetasym;", "\u{3D1}"),
        2030 => ("thetav;", "\u{3D1}"),
        2031 => ("thickapprox;", "\u{2248}"),
        2032 => ("thicksim;", "\u{223C}"),
        2033 => ("thinsp;", "\u{2009}"),
        2034 => ("thkap;", "\u{2248}"),
        2035 => ("thksim;", "\u{223C}"),
        2036 => ("thorn", "\u{FE}"),
        2037 => ("thorn;", "\u{FE}"),
        2038 => ("tilde;", "\u{2DC}"),
        2039 => ("times", "\u{D7}"),
        2040 => ("times;", "\u{D7}"),
        2041 => ("timesb;", "\u{22A0}"),
        2042 => ("timesbar;", "\u{2A31}"),
        2043 => ("timesd;", "\u{2A30}"),
        2044 => ("tint;", "\u{222D}"),
        2045 => ("toea;", "\u{2928}"),
        2046 => ("top;", "\u{22A4}"),
        2047 => ("topbot;", "\u{2336}"),
        _ => ("", ""),
    }
}

} // verus!
