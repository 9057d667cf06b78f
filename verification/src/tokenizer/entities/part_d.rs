use vstd::prelude::*;

verus! {

/// The names of the references 768 to 831, from `&boxUR;` to `&ccedil`.
#[verifier::opaque]
pub open spec fn names_768(index: int) -> Seq<char> {
    if index == 768 {
        "boxUR;"@
    } else if index == 769 {
        "boxUl;"@
    } else if index == 770 {
        "boxUr;"@
    } else if index == 771 {
        "boxV;"@
    } else if index == 772 {
        "boxVH;"@
    } else if index == 773 {
        "boxVL;"@
    } else if index == 774 {
        "boxVR;"@
    } else if index == 775 {
        "boxVh;"@
    } else if index == 776 {
        "boxVl;"@
    } else if index == 777 {
        "boxVr;"@
    } else if index == 778 {
        "boxbox;"@
    } else if index == 779 {
        "boxdL;"@
    } else if index == 780 {
        "boxdR;"@
    } else if index == 781 {
        "boxdl;"@
    } else if index == 782 {
        "boxdr;"@
    } else if index == 783 {
        "boxh;"@
    } else if index == 784 {
        "boxhD;"@
    } else if index == 785 {
        "boxhU;"@
    } else if index == 786 {
        "boxhd;"@
    } else if index == 787 {
        "boxhu;"@
    } else if index == 788 {
        "boxminus;"@
    } else if index == 789 {
        "boxplus;"@
    } else if index == 790 {
        "boxtimes;"@
    } else if index == 791 {
        "boxuL;"@
    } else if index == 792 {
        "boxuR;"@
    } else if index == 793 {
        "boxul;"@
    } else if index == 794 {
        "boxur;"@
    } else if index == 795 {
        "boxv;"@
    } else if index == 796 {
        "boxvH;"@
    } else if index == 797 {
        "boxvL;"@
    } else if index == 798 {
        "boxvR;"@
    } else if index == 799 {
        "boxvh;"@
    } else if index == 800 {
        "boxvl;"@
    } else if index == 801 {
        "boxvr;"@
    } else if index == 802 {
        "bprime;"@
    } else if index == 803 {
        "breve;"@
    } else if index == 804 {
        "brvbar"@
    } else if index == 805 {
        "brvbar;"@
    } else if index == 806 {
        "bscr;"@
    } else if index == 807 {
        "bsemi;"@
    } else if index == 808 {
        "bsim;"@
    } else if index == 809 {
        "bsime;"@
    } else if index == 810 {
        "bsol;"@
    } else if index == 811 {
        "bsolb;"@
    } else if index == 812 {
        "bsolhsub;"@
    } else if index == 813 {
        "bull;"@
    } else if index == 814 {
        "bullet;"@
    } else if index == 815 {
        "bump;"@
    } else if index == 816 {
        "bumpE;"@
    } else if index == 817 {
        "bumpe;"@
    } else if index == 818 {
        "bumpeq;"@
    } else if index == 819 {
        "cacute;"@
    } else if index == 820 {
        "cap;"@
    } else if index == 821 {
        "capand;"@
    } else if index == 822 {
        "capbrcup;"@
    } else if index == 823 {
        "capcap;"@
    } else if index == 824 {
        "capcup;"@
    } else if index == 825 {
        "capdot;"@
    } else if index == 826 {
        "caps;"@
    } else if index == 827 {
        "caret;"@
    } else if index == 828 {
        "caron;"@
    } else if index == 829 {
        "ccaps;"@
    } else if index == 830 {
        "ccaron;"@
    } else if index == 831 {
        "ccedil"@
    } else {
        Seq::empty()
    }
}

/// The characters that the references 768 to 831 stand for.
#[verifier::opaque]
pub open spec fn texts_768(index: int) -> Seq<char> {
    if index == 768 {
        "\u{255A}"@
    } else if index == 769 {
        "\u{255C}"@
    } else if index == 770 {
        "\u{2559}"@
    } else if index == 771 {
        "\u{2551}"@
    } else if index == 772 {
        "\u{256C}"@
    } else if index == 773 {
        "\u{2563}"@
    } else if index == 774 {
        "\u{2560}"@
    } else if index == 775 {
        "\u{256B}"@
    } else if index == 776 {
        "\u{2562}"@
    } else if index == 777 {
        "\u{255F}"@
    } else if index == 778 {
        "\u{29C9}"@
    } else if index == 779 {
        "\u{2555}"@
    } else if index == 780 {
        "\u{2552}"@
    } else if index == 781 {
        "\u{2510}"@
    } else if index == 782 {
        "\u{250C}"@
    } else if index == 783 {
        "\u{2500}"@
    } else if index == 784 {
        "\u{2565}"@
    } else if index == 785 {
        "\u{2568}"@
    } else if index == 786 {
        "\u{252C}"@
    } else if index == 787 {
        "\u{2534}"@
    } else if index == 788 {
        "\u{229F}"@
    } else if index == 789 {
        "\u{229E}"@
    } else if index == 790 {
        "\u{22A0}"@
    } else if index == 791 {
        "\u{255B}"@
    } else if index == 792 {
        "\u{2558}"@
    } else if index == 793 {
        "\u{2518}"@
    } else if index == 794 {
        "\u{2514}"@
    } else if index == 795 {
        "\u{2502}"@
    } else if index == 796 {
        "\u{256A}"@
    } else if index == 797 {
        "\u{2561}"@
    } else if index == 798 {
        "\u{255E}"@
    } else if index == 799 {
        "\u{253C}"@
    } else if index == 800 {
        "\u{2524}"@
    } else if index == 801 {
        "\u{251C}"@
    } else if index == 802 {
        "\u{2035}"@
    } else if index == 803 {
        "\u{2D8}"@
    } else if index == 804 {
        "\u{A6}"@
    } else if index == 805 {
        "\u{A6}"@
    } else if index == 806 {
        "\u{1D4B7}"@
    } else if index == 807 {
        "\u{204F}"@
    } else if index == 808 {
        "\u{223D}"@
    } else if index == 809 {
        "\u{22CD}"@
    } else if index == 810 {
        "\u{5C}"@
    } else if index == 811 {
        "\u{29C5}"@
    } else if index == 812 {
        "\u{27C8}"@
    } else if index == 813 {
        "\u{2022}"@
    } else if index == 814 {
        "\u{2022}"@
    } else if index == 815 {
        "\u{224E}"@
    } else if index == 816 {
        "\u{2AAE}"@
    } else if index == 817 {
        "\u{224F}"@
    } else if index == 818 {
        "\u{224F}"@
    } else if index == 819 {
        "\u{107}"@
    } else if index == 820 {
        "\u{2229}"@
    } else if index == 821 {
        "\u{2A44}"@
    } else if index == 822 {
        "\u{2A49}"@
    } else if index == 823 {
        "\u{2A4B}"@
    } else if index == 824 {
        "\u{2A47}"@
    } else if index == 825 {
        "\u{2A40}"@
    } else if index == 826 {
        "\u{2229}\u{FE00}"@
    } else if index == 827 {
        "\u{2041}"@
    } else if index == 828 {
        "\u{2C7}"@
    } else if index == 829 {
        "\u{2A4D}"@
    } else if index == 830 {
        "\u{10D}"@
    } else if index == 831 {
        "\u{E7}"@
    } else {
        Seq::empty()
    }
}

/// The name of the reference `index` and the characters that it stands for.
pub fn entry_768(index: usize) -> (r: (&'static str, &'static str))
    ensures
        r.0@ == names_768(index as int),
        r.1@ == texts_768(index as int),
{
    proof {
        reveal(names_768);
        reveal(texts_768);
        reveal_strlit("");
    }
    match index {
        768 => ("boxUR;", "\u{255A}"),
        769 => ("boxUl;", "\u{255C}"),
        770 => ("boxUr;", "\u{2559}"),
        771 => ("boxV;", "\u{2551}"),
        772 => ("boxVH;", "\u{256C}"),
        773 => ("boxVL;", "\u{2563}"),
        774 => ("boxVR;", "\u{2560}"),
        775 => ("boxVh;", "\u{256B}"),
        776 => ("boxVl;", "\u{2562}"),
        777 => ("boxVr;", "\u{255F}"),
        778 => ("boxbox;", "\u{29C9}"),
        779 => ("boxdL;", "\u{2555}"),
        780 => ("boxdR;", "\u{2552}"),
        781 => ("boxdl;", "\u{2510}"),
        782 => ("boxdr;", "\u{250C}"),
        783 => ("boxh;", "\u{2500}"),
        784 => ("boxhD;", "\u{2565}"),
        785 => ("boxhU;", "\u{2568}"),
        786 => ("boxhd;", "\u{252C}"),
        787 => ("boxhu;", "\u{2534}"),
        788 => ("boxminus;", "\u{229F}"),
        789 => ("boxplus;", "\u{229E}"),
        790 => ("boxtimes;", "\u{22A0}"),
        791 => ("boxuL;", "\u{255B}"),
        792 => ("boxuR;", "\u{2558}"),
        793 => ("boxul;", "\u{2518}"),
        794 => ("boxur;", "\u{2514}"),
        795 => ("boxv;", "\u{2502}"),
        796 => ("boxvH;", "\u{256A}"),
        797 => ("boxvL;", "\u{2561}"),
        798 => ("boxvR;", "\u{255E}"),
        799 => ("boxvh;", "\u{253C}"),
        800 => ("boxvl;", "\u{2524}"),
        801 => ("boxvr;", "\u{251C}"),
        802 => ("bprime;", "\u{2035}"),
        803 => ("breve;", "\u{2D8}"),
        804 => ("brvbar", "\u{A6}"),
        805 => ("brvbar;", "\u{A6}"),
        806 => ("bscr;", "\u{1D4B7}"),
        807 => ("bsemi;", "\u{204F}"),
        808 => ("bsim;", "\u{223D}"),
        809 => ("bsime;", "\u{22CD}"),
        810 => ("bsol;", "\u{5C}"),
        811 => ("bsolb;", "\u{29C5}"),
        812 => ("bsolhsub;", "\u{27C8}"),
        813 => ("bull;", "\u{2022}"),
        814 => ("bullet;", "\u{2022}"),
        815 => ("bump;", "\u{224E}"),
        816 => ("bumpE;", "\u{2AAE}"),
        817 => ("bumpe;", "\u{224F}"),
        818 => ("bumpeq;", "\u{224F}"),
        819 => ("cacute;", "\u{107}"),
        820 => ("cap;", "\u{2229}"),
        821 => ("capand;", "\u{2A44}"),
        822 => ("capbrcup;", "\u{2A49}"),
        823 => ("capcap;", "\u{2A4B}"),
        824 => ("capcup;", "\u{2A47}"),
        825 => ("capdot;", "\u{2A40}"),
        826 => ("caps;", "\u{2229}\u{FE00}"),
        827 => ("caret;", "\u{2041}"),
        828 => ("caron;", "\u{2C7}"),
        829 => ("ccaps;", "\u{2A4D}"),
        830 => ("ccaron;", "\u{10D}"),
        831 => ("ccedil", "\u{E7}"),
        _ => ("", ""),
    }
}

/// The names of the references 832 to 895, from `&ccedil;` to `&cularrp;`.
#[verifier::opaque]
pub open spec fn names_832(index: int) -> Seq<char> {
    if index == 832 {
        "ccedil;"@
    } else if index == 833 {
        "ccirc;"@
    } else if index == 834 {
        "ccups;"@
    } else if index == 835 {
        "ccupssm;"@
    } else if index == 836 {
        "cdot;"@
    } else if index == 837 {
        "cedil"@
    } else if index == 838 {
        "cedil;"@
    } else if index == 839 {
        "cemptyv;"@
    } else if index == 840 {
        "cent"@
    } else if index == 841 {
        "cent;"@
    } else if index == 842 {
        "centerdot;"@
    } else if index == 843 {
        "cfr;"@
    } else if index == 844 {
        "chcy;"@
    } else if index == 845 {
        "check;"@
    } else if index == 846 {
        "checkmark;"@
    } else if index == 847 {
        "chi;"@
    } else if index == 848 {
        "cir;"@
    } else if index == 849 {
        "cirE;"@
    } else if index == 850 {
        "circ;"@
    } else if index == 851 {
        "circeq;"@
    } else if index == 852 {
        "circlearrowleft;"@
    } else if index == 853 {
        "circlearrowright;"@
    } else if index == 854 {
        "circledR;"@
    } else if index == 855 {
        "circledS;"@
    } else if index == 856 {
        "circledast;"@
    } else if index == 857 {
        "circledcirc;"@
    } else if index == 858 {
        "circleddash;"@
    } else if index == 859 {
        "cire;"@
    } else if index == 860 {
        "cirfnint;"@
    } else if index == 861 {
        "cirmid;"@
    } else if index == 862 {
        "cirscir;"@
    } else if index == 863 {
        "clubs;"@
    } else if index == 864 {
        "clubsuit;"@
    } else if index == 865 {
        "colon;"@
    } else if index == 866 {
        "colone;"@
    } else if index == 867 {
        "coloneq;"@
    } else if index == 868 {
        "comma;"@
    } else if index == 869 {
        "commat;"@
    } else if index == 870 {
        "comp;"@
    } else if index == 871 {
        "compfn;"@
    } else if index == 872 {
        "complement;"@
    } else if index == 873 {
        "complexes;"@
    } else if index == 874 {
        "cong;"@
    } else if index == 875 {
        "congdot;"@
    } else if index == 876 {
        "conint;"@
    } else if index == 877 {
        "copf;"@
    } else if index == 878 {
        "coprod;"@
    } else if index == 879 {
        "copy"@
    } else if index == 880 {
        "copy;"@
    } else if index == 881 {
        "copysr;"@
    } else if index == 882 {
        "crarr;"@
    } else if index == 883 {
        "cross;"@
    } else if index == 884 {
        "cscr;"@
    } else if index == 885 {
        "csub;"@
    } else if index == 886 {
        "csube;"@
    } else if index == 887 {
        "csup;"@
    } else if index == 888 {
        "csupe;"@
    } else if index == 889 {
        "ctdot;"@
    } else if index == 890 {
        "cudarrl;"@
    } else if index == 891 {
        "cudarrr;"@
    } else if index == 892 {
        "cuepr;"@
    } else if index == 893 {
        "cuesc;"@
    } else if index == 894 {
        "cularr;"@
    } else if index == 895 {
        "cularrp;"@
    } else {
        Seq::empty()
    }
}

/// The characters that the references 832 to 895 stand for.
#[verifier::opaque]
pub open spec fn texts_832(index: int) -> Seq<char> {
    if index == 832 {
        "\u{E7}"@
    } else if index == 833 {
        "\u{109}"@
    } else if index == 834 {
        "\u{2A4C}"@
    } else if index == 835 {
        "\u{2A50}"@
    } else if index == 836 {
        "\u{10B}"@
    } else if index == 837 {
        "\u{B8}"@
    } else if index == 838 {
        "\u{B8}"@
    } else if index == 839 {
        "\u{29B2}"@
    } else if index == 840 {
        "\u{A2}"@
    } else if index == 841 {
        "\u{A2}"@
    } else if index == 842 {
        "\u{B7}"@
    } else if index == 843 {
        "\u{1D520}"@
    } else if index == 844 {
        "\u{447}"@
    } else if index == 845 {
        "\u{2713}"@
    } else if index == 846 {
        "\u{2713}"@
    } else if index == 847 {
        "\u{3C7}"@
    } else if index == 848 {
        "\u{25CB}"@
    } else if index == 849 {
        "\u{29C3}"@
    } else if index == 850 {
        "\u{2C6}"@
    } else if index == 851 {
        "\u{2257}"@
    } else if index == 852 {
        "\u{21BA}"@
    } else if index == 853 {
        "\u{21BB}"@
    } else if index == 854 {
        "\u{AE}"@
    } else if index == 855 {
        "\u{24C8}"@
    } else if index == 856 {
        "\u{229B}"@
    } else if index == 857 {
        "\u{229A}"@
    } else if index == 858 {
        "\u{229D}"@
    } else if index == 859 {
        "\u{2257}"@
    } else if index == 860 {
        "\u{2A10}"@
    } else if index == 861 {
        "\u{2AEF}"@
    } else if index == 862 {
        "\u{29C2}"@
    } else if index == 863 {
        "\u{2663}"@
    } else if index == 864 {
        "\u{2663}"@
    } else if index == 865 {
        "\u{3A}"@
    } else if index == 866 {
        "\u{2254}"@
    } else if index == 867 {
        "\u{2254}"@
    } else if index == 868 {
        "\u{2C}"@
    } else if index == 869 {
        "\u{40}"@
    } else if index == 870 {
        "\u{2201}"@
    } else if index == 871 {
        "\u{2218}"@
    } else if index == 872 {
        "\u{2201}"@
    } else if index == 873 {
        "\u{2102}"@
    } else if index == 874 {
        "\u{2245}"@
    } else if index == 875 {
        "\u{2A6D}"@
    } else if index == 876 {
        "\u{222E}"@
    } else if index == 877 {
        "\u{1D554}"@
    } else if index == 878 {
        "\u{2210}"@
    } else if index == 879 {
        "\u{A9}"@
    } else if index == 880 {
        "\u{A9}"@
    } else if index == 881 {
        "\u{2117}"@
    } else if index == 882 {
        "\u{21B5}"@
    } else if index == 883 {
        "\u{2717}"@
    } else if index == 884 {
        "\u{1D4B8}"@
    } else if index == 885 {
        "\u{2ACF}"@
    } else if index == 886 {
        "\u{2AD1}"@
    } else if index == 887 {
        "\u{2AD0}"@
    } else if index == 888 {
        "\u{2AD2}"@
    } else if index == 889 {
        "\u{22EF}"@
    } else if index == 890 {
        "\u{2938}"@
    } else if index == 891 {
        "\u{2935}"@
    } else if index == 892 {
        "\u{22DE}"@
    } else if index == 893 {
        "\u{22DF}"@
    } else if index == 894 {
        "\u{21B6}"@
    } else if index == 895 {
        "\u{293D}"@
    } else {
        Seq::empty()
    }
}

/// The name of the reference `index` and the characters that it stands for.
pub fn entry_832(index: usize) -> (r: (&'static str, &'static str))
    ensures
        r.0@ == names_832(index as int),
        r.1@ == texts_832(index as int),
{
    proof {
        reveal(names_832);
        reveal(texts_832);
        reveal_strlit("");
    }
    match index {
        832 => ("ccedil;", "\u{E7}"),
        833 => ("ccirc;", "\u{109}"),
        834 => ("ccups;", "\u{2A4C}"),
        835 => ("ccupssm;", "\u{2A50}"),
        836 => ("cdot;", "\u{10B}"),
        837 => ("cedil", "\u{B8}"),
        838 => ("cedil;", "\u{B8}"),
        839 => ("cemptyv;", "\u{29B2}"),
        840 => ("cent", "\u{A2}"),
        841 => ("cent;", "\u{A2}"),
        842 => ("centerdot;", "\u{B7}"),
        843 => ("cfr;", "\u{1D520}"),
        844 => ("chcy;", "\u{447}"),
        845 => ("check;", "\u{2713}"),
        846 => ("checkmark;", "\u{2713}"),
        847 => ("chi;", "\u{3C7}"),
        848 => ("cir;", "\u{25CB}"),
        849 => ("cirE;", "\u{29C3}"),
        850 => ("circ;", "\u{2C6}"),
        851 => ("circeq;", "\u{2257}"),
        852 => ("circlearrowleft;", "\u{21BA}"),
        853 => ("circlearrowright;", "\u{21BB}"),
        854 => ("circledR;", "\u{AE}"),
        855 => ("circledS;", "\u{24C8}"),
        856 => ("circledast;", "\u{229B}"),
        857 => ("circledcirc;", "\u{229A}"),
        858 => ("circleddash;", "\u{229D}"),
        859 => ("cire;", "\u{2257}"),
        860 => ("cirfnint;", "\u{2A10}"),
        861 => ("cirmid;", "\u{2AEF}"),
        862 => ("cirscir;", "\u{29C2}"),
        863 => ("clubs;", "\u{2663}"),
        864 => ("clubsuit;", "\u{2663}"),
        865 => ("colon;", "\u{3A}"),
        866 => ("colone;", "\u{2254}"),
        867 => ("coloneq;", "\u{2254}"),
        868 => ("comma;", "\u{2C}"),
        869 => ("commat;", "\u{40}"),
        870 => ("comp;", "\u{2201}"),
        871 => ("compfn;", "\u{2218}"),
        872 => ("complement;", "\u{2201}"),
        873 => ("complexes;", "\u{2102}"),
        874 => ("cong;", "\u{2245}"),
        875 => ("congdot;", "\u{2A6D}"),
        876 => ("conint;", "\u{222E}"),
        877 => ("copf;", "\u{1D554}"),
        878 => ("coprod;", "\u{2210}"),
        879 => ("copy", "\u{A9}"),
        880 => ("copy;", "\u{A9}"),
        881 => ("copysr;", "\u{2117}"),
        882 => ("crarr;", "\u{21B5}"),
        883 => ("cross;", "\u{2717}"),
        884 => ("cscr;", "\u{1D4B8}"),
        885 => ("csub;", "\u{2ACF}"),
        886 => ("csube;", "\u{2AD1}"),
        887 => ("csup;", "\u{2AD0}"),
        888 => ("csupe;", "\u{2AD2}"),
        889 => ("ctdot;", "\u{22EF}"),
        890 => ("cudarrl;", "\u{2938}"),
        891 => ("cudarrr;", "\u{2935}"),
        892 => ("cuepr;", "\u{22DE}"),
        893 => ("cuesc;", "\u{22DF}"),
        894 => ("cularr;", "\u{21B6}"),
        895 => ("cularrp;", "\u{293D}"),
        _ => ("", ""),
    }
}

/// The names of the references 896 to 959, from `&cup;` to `&doteq;`.
#[verifier::opaque]
pub open spec fn names_896(index: int) -> Seq<char> {
    if index == 896 {
        "cup;"@
    } else if index == 897 {
        "cupbrcap;"@
    } else if index == 898 {
        "cupcap;"@
    } else if index == 899 {
        "cupcup;"@
    } else if index == 900 {
        "cupdot;"@
    } else if index == 901 {
        "cupor;"@
    } else if index == 902 {
        "cups;"@
    } else if index == 903 {
        "curarr;"@
    } else if index == 904 {
        "curarrm;"@
    } else if index == 905 {
        "curlyeqprec;"@
    } else if index == 906 {
        "curlyeqsucc;"@
    } else if index == 907 {
        "curlyvee;"@
    } else if index == 908 {
        "curlywedge;"@
    } else if index == 909 {
        "curren"@
    } else if index == 910 {
        "curren;"@
    } else if index == 911 {
        "curvearrowleft;"@
    } else if index == 912 {
        "curvearrowright;"@
    } else if index == 913 {
        "cuvee;"@
    } else if index == 914 {
        "cuwed;"@
    } else if index == 915 {
        "cwconint;"@
    } else if index == 916 {
        "cwint;"@
    } else if index == 917 {
        "cylcty;"@
    } else if index == 918 {
        "dArr;"@
    } else if index == 919 {
        "dHar;"@
    } else if index == 920 {
        "dagger;"@
    } else if index == 921 {
        "daleth;"@
    } else if index == 922 {
        "darr;"@
    } else if index == 923 {
        "dash;"@
    } else if index == 924 {
        "dashv;"@
    } else if index == 925 {
        "dbkarow;"@
    } else if index == 926 {
        "dblac;"@
    } else if index == 927 {
        "dcaron;"@
    } else if index == 928 {
        "dcy;"@
    } else if index == 929 {
        "dd;"@
    } else if index == 930 {
        "ddagger;"@
    } else if index == 931 {
        "ddarr;"@
    } else if index == 932 {
        "ddotseq;"@
    } else if index == 933 {
        "deg"@
    } else if index == 934 {
        "deg;"@
    } else if index == 935 {
        "delta;"@
    } else if index == 936 {
        "demptyv;"@
    } else if index == 937 {
        "dfisht;"@
    } else if index == 938 {
        "dfr;"@
    } else if index == 939 {
        "dharl;"@
    } else if index == 940 {
        "dharr;"@
    } else if index == 941 {
        "diam;"@
    } else if index == 942 {
        "diamond;"@
    } else if index == 943 {
        "diamondsuit;"@
    } else if index == 944 {
        "diams;"@
    } else if index == 945 {
        "die;"@
    } else if index == 946 {
        "digamma;"@
    } else if index == 947 {
        "disin;"@
    } else if index == 948 {
        "div;"@
    } else if index == 949 {
        "divide"@
    } else if index == 950 {
        "divide;"@
    } else if index == 951 {
        "divideontimes;"@
    } else if index == 952 {
        "divonx;"@
    } else if index == 953 {
        "djcy;"@
    } else if index == 954 {
        "dlcorn;"@
    } else if index == 955 {
        "dlcrop;"@
    } else if index == 956 {
        "dollar;"@
    } else if index == 957 {
        "dopf;"@
    } else if index == 958 {
        "dot;"@
    } else if index == 959 {
        "doteq;"@
    } else {
        Seq::empty()
    }
}

/// The characters that the references 896 to 959 stand for.
#[verifier::opaque]
pub open spec fn texts_896(index: int) -> Seq<char> {
    if index == 896 {
        "\u{222A}"@
    } else if index == 897 {
        "\u{2A48}"@
    } else if index == 898 {
        "\u{2A46}"@
    } else if index == 899 {
        "\u{2A4A}"@
    } else if index == 900 {
        "\u{228D}"@
    } else if index == 901 {
        "\u{2A45}"@
    } else if index == 902 {
        "\u{222A}\u{FE00}"@
    } else if index == 903 {
        "\u{21B7}"@
    } else if index == 904 {
        "\u{293C}"@
    } else if index == 905 {
        "\u{22DE}"@
    } else if index == 906 {
        "\u{22DF}"@
    } else if index == 907 {
        "\u{22CE}"@
    } else if index == 908 {
        "\u{22CF}"@
    } else if index == 909 {
        "\u{A4}"@
    } else if index == 910 {
        "\u{A4}"@
    } else if index == 911 {
        "\u{21B6}"@
    } else if index == 912 {
        "\u{21B7}"@
    } else if index == 913 {
        "\u{22CE}"@
    } else if index == 914 {
        "\u{22CF}"@
    } else if index == 915 {
        "\u{2232}"@
    } else if index == 916 {
        "\u{2231}"@
    } else if index == 917 {
        "\u{232D}"@
    } else if index == 918 {
        "\u{21D3}"@
    } else if index == 919 {
        "\u{2965}"@
    } else if index == 920 {
        "\u{2020}"@
    } else if index == 921 {
        "\u{2138}"@
    } else if index == 922 {
        "\u{2193}"@
    } else if index == 923 {
        "\u{2010}"@
    } else if index == 924 {
        "\u{22A3}"@
    } else if index == 925 {
        "\u{290F}"@
    } else if index == 926 {
        "\u{2DD}"@
    } else if index == 927 {
        "\u{10F}"@
    } else if index == 928 {
        "\u{434}"@
    } else if index == 929 {
        "\u{2146}"@
    } else if index == 930 {
        "\u{2021}"@
    } else if index == 931 {
        "\u{21CA}"@
    } else if index == 932 {
        "\u{2A77}"@
    } else if index == 933 {
        "\u{B0}"@
    } else if index == 934 {
        "\u{B0}"@
    } else if index == 935 {
        "\u{3B4}"@
    } else if index == 936 {
        "\u{29B1}"@
    } else if index == 937 {
        "\u{297F}"@
    } else if index == 938 {
        "\u{1D521}"@
    } else if index == 939 {
        "\u{21C3}"@
    } else if index == 940 {
        "\u{21C2}"@
    } else if index == 941 {
        "\u{22C4}"@
    } else if index == 942 {
        "\u{22C4}"@
    } else if index == 943 {
        "\u{2666}"@
    } else if index == 944 {
        "\u{2666}"@
    } else if index == 945 {
        "\u{A8}"@
    } else if index == 946 {
        "\u{3DD}"@
    } else if index == 947 {
        "\u{22F2}"@
    } else if index == 948 {
        "\u{F7}"@
    } else if index == 949 {
        "\u{F7}"@
    } else if index == 950 {
        "\u{F7}"@
    } else if index == 951 {
        "\u{22C7}"@
    } else if index == 952 {
        "\u{22C7}"@
    } else if index == 953 {
        "\u{452}"@
    } else if index == 954 {
        "\u{231E}"@
    } else if index == 955 {
        "\u{230D}"@
    } else if index == 956 {
        "\u{24}"@
    } else if index == 957 {
        "\u{1D555}"@
    } else if index == 958 {
        "\u{2D9}"@
    } else if index == 959 {
        "\u{2250}"@
    } else {
        Seq::empty()
    }
}

/// The name of the reference `index` and the characters that it stands for.
pub fn entry_896(index: usize) -> (r: (&'static str, &'static str))
    ensures
        r.0@ == names_896(index as int),
        r.1@ == texts_896(index as int),
{
    proof {
        reveal(names_896);
        reveal(texts_896);
        reveal_strlit("");
    }
    match index {
        896 => ("cup;", "\u{222A}"),
        897 => ("cupbrcap;", "\u{2A48}"),
        898 => ("cupcap;", "\u{2A46}"),
        899 => ("cupcup;", "\u{2A4A}"),
        900 => ("cupdot;", "\u{228D}"),
        901 => ("cupor;", "\u{2A45}"),
        902 => ("cups;", "\u{222A}\u{FE00}"),
        903 => ("curarr;", "\u{21B7}"),
        904 => ("curarrm;", "\u{293C}"),
        905 => ("curlyeqprec;", "\u{22DE}"),
        906 => ("curlyeqsucc;", "\u{22DF}"),
        907 => ("curlyvee;", "\u{22CE}"),
        908 => ("curlywedge;", "\u{22CF}"),
        909 => ("curren", "\u{A4}"),
        910 => ("curren;", "\u{A4}"),
        911 => ("curvearrowleft;", "\u{21B6}"),
        912 => ("curvearrowright;", "\u{21B7}"),
        913 => ("cuvee;", "\u{22CE}"),
        914 => ("cuwed;", "\u{22CF}"),
        915 => ("cwconint;", "\u{2232}"),
        916 => ("cwint;", "\u{2231}"),
        917 => ("cylcty;", "\u{232D}"),
        918 => ("dArr;", "\u{21D3}"),
        919 => ("dHar;", "\u{2965}"),
        920 => ("dagger;", "\u{2020}"),
        921 => ("daleth;", "\u{2138}"),
        922 => ("darr;", "\u{2193}"),
        923 => ("dash;", "\u{2010}"),
        924 => ("dashv;", "\u{22A3}"),
        925 => ("dbkarow;", "\u{290F}"),
        926 => ("dblac;", "\u{2DD}"),
        927 => ("dcaron;", "\u{10F}"),
        928 => ("dcy;", "\u{434}"),
        929 => ("dd;", "\u{2146}"),
        930 => ("ddagger;", "\u{2021}"),
        931 => ("ddarr;", "\u{21CA}"),
        932 => ("ddotseq;", "\u{2A77}"),
        933 => ("deg", "\u{B0}"),
        934 => ("deg;", "\u{B0}"),
        935 => ("delta;", "\u{3B4}"),
        936 => ("demptyv;", "\u{29B1}"),
        937 => ("dfisht;", "\u{297F}"),
        938 => ("dfr;", "\u{1D521}"),
        939 => ("dharl;", "\u{21C3}"),
        940 => ("dharr;", "\u{21C2}"),
        941 => ("diam;", "\u{22C4}"),
        942 => ("diamond;", "\u{22C4}"),
        943 => ("diamondsuit;", "\u{2666}"),
        944 => ("diams;", "\u{2666}"),
        945 => ("die;", "\u{A8}"),
        946 => ("digamma;", "\u{3DD}"),
        947 => ("disin;", "\u{22F2}"),
        948 => ("div;", "\u{F7}"),
        949 => ("divide", "\u{F7}"),
        950 => ("divide;", "\u{F7}"),
        951 => ("divideontimes;", "\u{22C7}"),
        952 => ("divonx;", "\u{22C7}"),
        953 => ("djcy;", "\u{452}"),
        954 => ("dlcorn;", "\u{231E}"),
        955 => ("dlcrop;", "\u{230D}"),
        956 => ("dollar;", "\u{24}"),
        957 => ("dopf;", "\u{1D555}"),
        958 => ("dot;", "\u{2D9}"),
        959 => ("doteq;", "\u{2250}"),
        _ => ("", ""),
    }
}

/// The names of the references 960 to 1023, from `&doteqdot;` to `&epsi;`.
#[verifier::opaque]
pub open spec fn names_960(index: int) -> Seq<char> {
    if index == 960 {
        "doteqdot;"@
    } else if index == 961 {
        "dotminus;"@
    } else if index == 962 {
        "dotplus;"@
    } else if index == 963 {
        "dotsquare;"@
    } else if index == 964 {
        "doublebarwedge;"@
    } else if index == 965 {
        "downarrow;"@
    } else if index == 966 {
        "downdownarrows;"@
    } else if index == 967 {
        "downharpoonleft;"@
    } else if index == 968 {
        "downharpoonright;"@
    } else if index == 969 {
        "drbkarow;"@
    } else if index == 970 {
        "drcorn;"@
    } else if index == 971 {
        "drcrop;"@
    } else if index == 972 {
        "dscr;"@
    } else if index == 973 {
        "dscy;"@
    } else if index == 974 {
        "dsol;"@
    } else if index == 975 {
        "dstrok;"@
    } else if index == 976 {
        "dtdot;"@
    } else if index == 977 {
        "dtri;"@
    } else if index == 978 {
        "dtrif;"@
    } else if index == 979 {
        "duarr;"@
    } else if index == 980 {
        "duhar;"@
    } else if index == 981 {
        "dwangle;"@
    } else if index == 982 {
        "dzcy;"@
    } else if index == 983 {
        "dzigrarr;"@
    } else if index == 984 {
        "eDDot;"@
    } else if index == 985 {
        "eDot;"@
    } else if index == 986 {
        "eacute"@
    } else if index == 987 {
        "eacute;"@
    } else if index == 988 {
        "easter;"@
    } else if index == 989 {
        "ecaron;"@
    } else if index == 990 {
        "ecir;"@
    } else if index == 991 {
        "ecirc"@
    } else if index == 992 {
        "ecirc;"@
    } else if index == 993 {
        "ecolon;"@
    } else if index == 994 {
        "ecy;"@
    } else if index == 995 {
        "edot;"@
    } else if index == 996 {
        "ee;"@
    } else if index == 997 {
        "efDot;"@
    } else if index == 998 {
        "efr;"@
    } else if index == 999 {
        "eg;"@
    } else if index == 1000 {
        "egrave"@
    } else if index == 1001 {
        "egrave;"@
    } else if index == 1002 {
        "egs;"@
    } else if index == 1003 {
        "egsdot;"@
    } else if index == 1004 {
        "el;"@
    } else if index == 1005 {
        "elinters;"@
    } else if index == 1006 {
        "ell;"@
    } else if index == 1007 {
        "els;"@
    } else if index == 1008 {
        "elsdot;"@
    } else if index == 1009 {
        "emacr;"@
    } else if index == 1010 {
        "empty;"@
    } else if index == 1011 {
        "emptyset;"@
    } else if index == 1012 {
        "emptyv;"@
    } else if index == 1013 {
        "emsp13;"@
    } else if index == 1014 {
        "emsp14;"@
    } else if index == 1015 {
        "emsp;"@
    } else if index == 1016 {
        "eng;"@
    } else if index == 1017 {
        "ensp;"@
    } else if index == 1018 {
        "eogon;"@
    } else if index == 1019 {
        "eopf;"@
    } else if index == 1020 {
        "epar;"@
    } else if index == 1021 {
        "eparsl;"@
    } else if index == 1022 {
        "eplus;"@
    } else if index == 1023 {
        "epsi;"@
    } else {
        Seq::empty()
    }
}

/// The characters that the references 960 to 1023 stand for.
#[verifier::opaque]
pub open spec fn texts_960(index: int) -> Seq<char> {
    if index == 960 {
        "\u{2251}"@
    } else if index == 961 {
        "\u{2238}"@
    } else if index == 962 {
        "\u{2214}"@
    } else if index == 963 {
        "\u{22A1}"@
    } else if index == 964 {
        "\u{2306}"@
    } else if index == 965 {
        "\u{2193}"@
    } else if index == 966 {
        "\u{21CA}"@
    } else if index == 967 {
        "\u{21C3}"@
    } else if index == 968 {
        "\u{21C2}"@
    } else if index == 969 {
        "\u{2910}"@
    } else if index == 970 {
        "\u{231F}"@
    } else if index == 971 {
        "\u{230C}"@
    } else if index == 972 {
        "\u{1D4B9}"@
    } else if index == 973 {
        "\u{455}"@
    } else if index == 974 {
        "\u{29F6}"@
    } else if index == 975 {
        "\u{111}"@
    } else if index == 976 {
        "\u{22F1}"@
    } else if index == 977 {
        "\u{25BF}"@
    } else if index == 978 {
        "\u{25BE}"@
    } else if index == 979 {
        "\u{21F5}"@
    } else if index == 980 {
        "\u{296F}"@
    } else if index == 981 {
        "\u{29A6}"@
    } else if index == 982 {
        "\u{45F}"@
    } else if index == 983 {
        "\u{27FF}"@
    } else if index == 984 {
        "\u{2A77}"@
    } else if index == 985 {
        "\u{2251}"@
    } else if index == 986 {
        "\u{E9}"@
    } else if index == 987 {
        "\u{E9}"@
    } else if index == 988 {
        "\u{2A6E}"@
    } else if index == 989 {
        "\u{11B}"@
    } else if index == 990 {
        "\u{2256}"@
    } else if index == 991 {
        "\u{EA}"@
    } else if index == 992 {
        "\u{EA}"@
    } else if index == 993 {
        "\u{2255}"@
    } else if index == 994 {
        "\u{44D}"@
    } else if index == 995 {
        "\u{117}"@
    } else if index == 996 {
        "\u{2147}"@
    } else if index == 997 {
        "\u{2252}"@
    } else if index == 998 {
        "\u{1D522}"@
    } else if index == 999 {
        "\u{2A9A}"@
    } else if index == 1000 {
        "\u{E8}"@
    } else if index == 1001 {
        "\u{E8}"@
    } else if index == 1002 {
        "\u{2A96}"@
    } else if index == 1003 {
        "\u{2A98}"@
    } else if index == 1004 {
        "\u{2A99}"@
    } else if index == 1005 {
        "\u{23E7}"@
    } else if index == 1006 {
        "\u{2113}"@
    } else if index == 1007 {
        "\u{2A95}"@
    } else if index == 1008 {
        "\u{2A97}"@
    } else if index == 1009 {
        "\u{113}"@
    } else if index == 1010 {
        "\u{2205}"@
    } else if index == 1011 {
        "\u{2205}"@
    } else if index == 1012 {
        "\u{2205}"@
    } else if index == 1013 {
        "\u{2004}"@
    } else if index == 1014 {
        "\u{2005}"@
    } else if index == 1015 {
        "\u{2003}"@
    } else if index == 1016 {
        "\u{14B}"@
    } else if index == 1017 {
        "\u{2002}"@
    } else if index == 1018 {
        "\u{119}"@
    } else if index == 1019 {
        "\u{1D556}"@
    } else if index == 1020 {
        "\u{22D5}"@
    } else if index == 1021 {
        "\u{29E3}"@
    } else if index == 1022 {
        "\u{2A71}"@
    } else if index == 1023 {
        "\u{3B5}"@
    } else {
        Seq::empty()
    }
}

/// The name of the reference `index` and the characters that it stands for.
pub fn entry_960(index: usize) -> (r: (&'static str, &'static str))
    ensures
        r.0@ == names_960(index as int),
        r.1@ == texts_960(index as int),
{
    proof {
        reveal(names_960);
        reveal(texts_960);
        reveal_strlit("");
    }
    match index {
        960 => ("doteqdot;", "\u{2251}"),
        961 => ("dotminus;", "\u{2238}"),
        962 => ("dotplus;", "\u{2214}"),
        963 => ("dotsquare;", "\u{22A1}"),
        964 => ("doublebarwedge;", "\u{2306}"),
        965 => ("downarrow;", "\u{2193}"),
        966 => ("downdownarrows;", "\u{21CA}"),
        967 => ("downharpoonleft;", "\u{21C3}"),
        968 => ("downharpoonright;", "\u{21C2}"),
        969 => ("drbkarow;", "\u{2910}"),
        970 => ("drcorn;", "\u{231F}"),
        971 => ("drcrop;", "\u{230C}"),
        972 => ("dscr;", "\u{1D4B9}"),
        973 => ("dscy;", "\u{455}"),
        974 => ("dsol;", "\u{29F6}"),
        975 => ("dstrok;", "\u{111}"),
        976 => ("dtdot;", "\u{22F1}"),
        977 => ("dtri;", "\u{25BF}"),
        978 => ("dtrif;", "\u{25BE}"),
        979 => ("duarr;", "\u{21F5}"),
        980 => ("duhar;", "\u{296F}"),
        981 => ("dwangle;", "\u{29A6}"),
        982 => ("dzcy;", "\u{45F}"),
        983 => ("dzigrarr;", "\u{27FF}"),
        984 => ("eDDot;", "\u{2A77}"),
        985 => ("eDot;", "\u{2251}"),
        986 => ("eacute", "\u{E9}"),
        987 => ("eacute;", "\u{E9}"),
        988 => ("easter;", "\u{2A6E}"),
        989 => ("ecaron;", "\u{11B}"),
        990 => ("ecir;", "\u{2256}"),
        991 => ("ecirc", "\u{EA}"),
        992 => ("ecirc;", "\u{EA}"),
        993 => ("ecolon;", "\u{2255}"),
        994 => ("ecy;", "\u{44D}"),
        995 => ("edot;", "\u{117}"),
        996 => ("ee;", "\u{2147}"),
        997 => ("efDot;", "\u{2252}"),
        998 => ("efr;", "\u{1D522}"),
        999 => ("eg;", "\u{2A9A}"),
        1000 => ("egrave", "\u{E8}"),
        1001 => ("egrave;", "\u{E8}"),
        1002 => ("egs;", "\u{2A96}"),
        1003 => ("egsdot;", "\u{2A98}"),
        1004 => ("el;", "\u{2A99}"),
        1005 => ("elinters;", "\u{23E7}"),
        1006 => ("ell;", "\u{2113}"),
        1007 => ("els;", "\u{2A95}"),
        1008 => ("elsdot;", "\u{2A97}"),
        1009 => ("emacr;", "\u{113}"),
        1010 => ("empty;", "\u{2205}"),
        1011 => ("emptyset;", "\u{2205}"),
        1012 => ("emptyv;", "\u{2205}"),
        1013 => ("emsp13;", "\u{2004}"),
        1014 => ("emsp14;", "\u{2005}"),
        1015 => ("emsp;", "\u{2003}"),
        1016 => ("eng;", "\u{14B}"),
        1017 => ("ensp;", "\u{2002}"),
        1018 => ("eogon;", "\u{119}"),
        1019 => ("eopf;", "\u{1D556}"),
        1020 => ("epar;", "\u{22D5}"),
        1021 => ("eparsl;", "\u{29E3}"),
        1022 => ("eplus;", "\u{2A71}"),
        1023 => ("epsi;", "\u{3B5}"),
        _ => ("", ""),
    }
}

} // verus!
