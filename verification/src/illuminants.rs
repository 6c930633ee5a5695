//! Standard observers, reference illuminants, and the table of their
//! chromaticity coordinates.

use vstd::prelude::*;
use crate::rational::Q;

verus! {

/// A CIE standard colorimetric observer.
#[derive(Clone, Copy, PartialEq, Eq, Structural, PartialOrd, Ord, Debug)]
pub enum StandardObserver {
    Two,
    Ten,
}

/// A named CIE reference illuminant.
#[derive(Clone, Copy, PartialEq, Eq, Structural, PartialOrd, Ord, Debug)]
pub enum Illuminant {
    A,
    B,
    C,
    D50,
    D55,
    D60,
    D65,
    D75,
    E,
    FL1,
    FL2,
    FL3,
    FL4,
    FL5,
    FL6,
    FL7,
    FL8,
    FL9,
    FL10,
    FL11,
    FL12,
    FL31,
    FL32,
    FL33,
    FL34,
    FL35,
    FL36,
    FL37,
    FL38,
    FL39,
    FL310,
    FL311,
    FL312,
    FL313,
    FL314,
    FL315,
    HP1,
    HP2,
    HP3,
    HP4,
    HP5,
}

/// A point on the CIE chromaticity diagram.
#[derive(Clone, Copy, PartialEq, Eq, Structural, Debug)]
pub struct Chromaticity {
    pub x: Q,
    pub y: Q,
}

/// The published chromaticity of each (observer, illuminant) pair, as the
/// two exact fractions `(x numerator, x denominator, y numerator, y
/// denominator)`, in lowest terms.
pub open spec fn illuminant_spec(o: StandardObserver, i: Illuminant) -> (int, int, int, int) {
    match o {
        StandardObserver::Two => {
            match i {
                Illuminant::A => (22379int, 50000int, 8149int, 20000int),
                Illuminant::B => (17421int, 50000int, 35161int, 100000int),
                Illuminant::C => (15503int, 50000int, 988int, 3125int),
                Illuminant::D50 => (3457int, 10000int, 717int, 2000int),
                Illuminant::D55 => (33243int, 100000int, 4343int, 12500int),
                Illuminant::D60 => (321626242047397int, 1000000000000000int, 84434248988859int, 250000000000000int),
                Illuminant::D65 => (3127int, 10000int, 329int, 1000int),
                Illuminant::D75 => (29903int, 100000int, 984int, 3125int),
                Illuminant::E => (1int, 3int, 1int, 3int),
                Illuminant::FL1 => (3131int, 10000int, 3371int, 10000int),
                Illuminant::FL2 => (3721int, 10000int, 3751int, 10000int),
                Illuminant::FL3 => (4091int, 10000int, 3941int, 10000int),
                Illuminant::FL4 => (2201int, 5000int, 4031int, 10000int),
                Illuminant::FL5 => (1569int, 5000int, 863int, 2500int),
                Illuminant::FL6 => (3779int, 10000int, 1941int, 5000int),
                Illuminant::FL7 => (3129int, 10000int, 823int, 2500int),
                Illuminant::FL8 => (1729int, 5000int, 1793int, 5000int),
                Illuminant::FL9 => (3741int, 10000int, 3727int, 10000int),
                Illuminant::FL10 => (1729int, 5000int, 897int, 2500int),
                Illuminant::FL11 => (761int, 2000int, 3769int, 10000int),
                Illuminant::FL12 => (437int, 1000int, 2021int, 5000int),
                Illuminant::FL31 => (4407int, 10000int, 4033int, 10000int),
                Illuminant::FL32 => (238int, 625int, 1867int, 5000int),
                Illuminant::FL33 => (3153int, 10000int, 3439int, 10000int),
                Illuminant::FL34 => (4429int, 10000int, 4043int, 10000int),
                Illuminant::FL35 => (3749int, 10000int, 459int, 1250int),
                Illuminant::FL36 => (218int, 625int, 9int, 25int),
                Illuminant::FL37 => (274int, 625int, 809int, 2000int),
                Illuminant::FL38 => (191int, 500int, 479int, 1250int),
                Illuminant::FL39 => (3499int, 10000int, 3591int, 10000int),
                Illuminant::FL310 => (691int, 2000int, 89int, 250int),
                Illuminant::FL311 => (649int, 2000int, 1717int, 5000int),
                Illuminant::FL312 => (4377int, 10000int, 4037int, 10000int),
                Illuminant::FL313 => (383int, 1000int, 931int, 2500int),
                Illuminant::FL314 => (3447int, 10000int, 3609int, 10000int),
                Illuminant::FL315 => (3127int, 10000int, 411int, 1250int),
                Illuminant::HP1 => (533int, 1000int, 83int, 200int),
                Illuminant::HP2 => (2389int, 5000int, 2079int, 5000int),
                Illuminant::HP3 => (2151int, 5000int, 163int, 400int),
                Illuminant::HP4 => (953int, 2500int, 3797int, 10000int),
                Illuminant::HP5 => (236int, 625int, 3713int, 10000int),
            }
        },
        StandardObserver::Ten => {
            match i {
                Illuminant::A => (45117int, 100000int, 20297int, 50000int),
                Illuminant::B => (1749int, 5000int, 3527int, 10000int),
                Illuminant::C => (31039int, 100000int, 6381int, 20000int),
                Illuminant::D50 => (34773int, 100000int, 2247int, 6250int),
                Illuminant::D55 => (8353int, 25000int, 34877int, 100000int),
                Illuminant::D60 => (16149346335791int, 50000000000000int, 339275732345997int, 1000000000000000int),
                Illuminant::D65 => (15691int, 50000int, 331int, 1000int),
                Illuminant::D75 => (1873int, 6250int, 1587int, 5000int),
                Illuminant::E => (1int, 3int, 1int, 3int),
                Illuminant::FL1 => (31811int, 100000int, 33559int, 100000int),
                Illuminant::FL2 => (1517int, 4000int, 36733int, 100000int),
                Illuminant::FL3 => (41761int, 100000int, 9581int, 25000int),
                Illuminant::FL4 => (1123int, 2500int, 19537int, 50000int),
                Illuminant::FL5 => (1279int, 4000int, 17123int, 50000int),
                Illuminant::FL6 => (1933int, 5000int, 37847int, 100000int),
                Illuminant::FL7 => (31569int, 100000int, 206int, 625int),
                Illuminant::FL8 => (17451int, 50000int, 35939int, 100000int),
                Illuminant::FL9 => (37829int, 100000int, 7409int, 20000int),
                Illuminant::FL10 => (3509int, 10000int, 8861int, 25000int),
                Illuminant::FL11 => (38541int, 100000int, 37123int, 100000int),
                Illuminant::FL12 => (1383int, 3125int, 39717int, 100000int),
                Illuminant::FL31 => (449830684010003int, 1000000000000000int, 195115702160633int, 500000000000000int),
                Illuminant::FL32 => (386924116672933int, 1000000000000000int, 365756034732821int, 1000000000000000int),
                Illuminant::FL33 => (64235397371173int, 200000000000000int, 340501092654981int, 1000000000000000int),
                Illuminant::FL34 => (89624255022799int, 200000000000000int, 198538556071241int, 500000000000000int),
                Illuminant::FL35 => (75562833321779int, 200000000000000int, 18331288348153int, 50000000000000int),
                Illuminant::FL36 => (21998529936469int, 62500000000000int, 361094432889677int, 1000000000000000int),
                Illuminant::FL37 => (222154604405461int, 500000000000000int, 396791387314871int, 1000000000000000int),
                Illuminant::FL38 => (387588931999771int, 1000000000000000int, 376305569410173int, 1000000000000000int),
                Illuminant::FL39 => (354688990710449int, 1000000000000000int, 353445033593383int, 1000000000000000int),
                Illuminant::FL310 => (218340495209int, 625000000000int, 354984421140869int, 1000000000000000int),
                Illuminant::FL311 => (4115849696189int, 12500000000000int, 338865386643537int, 1000000000000000int),
                Illuminant::FL312 => (442252080438001int, 1000000000000000int, 100305137767813int, 250000000000000int),
                Illuminant::FL313 => (386275268780817int, 1000000000000000int, 187141595475293int, 500000000000000int),
                Illuminant::FL314 => (347255078638291int, 1000000000000000int, 18340412125209int, 50000000000000int),
                Illuminant::FL315 => (157306998954623int, 500000000000000int, 333377149377113int, 1000000000000000int),
                Illuminant::HP1 => (543334600247307int, 1000000000000000int, 405289298480431int, 1000000000000000int),
                Illuminant::HP2 => (482647330648721int, 1000000000000000int, 82163128835937int, 200000000000000int),
                Illuminant::HP3 => (217780017251977int, 500000000000000int, 398801084399711int, 1000000000000000int),
                Illuminant::HP4 => (385193641123543int, 1000000000000000int, 73655095848203int, 200000000000000int),
                Illuminant::HP5 => (190158207803319int, 500000000000000int, 366617114797851int, 1000000000000000int),
            }
        },
    }
}

/// Chromaticity coordinates of a reference illuminant under a standard
/// observer.  Total over both enumerations; the result is the calibrated
/// constant of `illuminant_spec`, and both coordinates lie in `[0, 1]`.
pub fn illuminant(o: StandardObserver, i: Illuminant) -> (r: Chromaticity)
    ensures
        r.x.wf(),
        r.y.wf(),
        r.x.num() == illuminant_spec(o, i).0,
        r.x.den() == illuminant_spec(o, i).1,
        r.y.num() == illuminant_spec(o, i).2,
        r.y.den() == illuminant_spec(o, i).3,
        0 <= r.x.num() <= r.x.den(),
        0 <= r.y.num() <= r.y.den(),
{
    match o {
        StandardObserver::Two => {
            match i {
                Illuminant::A => Chromaticity { x: Q::from_parts(22379, 50000), y: Q::from_parts(8149, 20000) },
                Illuminant::B => Chromaticity { x: Q::from_parts(17421, 50000), y: Q::from_parts(35161, 100000) },
                Illuminant::C => Chromaticity { x: Q::from_parts(15503, 50000), y: Q::from_parts(988, 3125) },
                Illuminant::D50 => Chromaticity { x: Q::from_parts(3457, 10000), y: Q::from_parts(717, 2000) },
                Illuminant::D55 => Chromaticity { x: Q::from_parts(33243, 100000), y: Q::from_parts(4343, 12500) },
                Illuminant::D60 => Chromaticity { x: Q::from_parts(321626242047397, 1000000000000000), y: Q::from_parts(84434248988859, 250000000000000) },
                Illuminant::D65 => Chromaticity { x: Q::from_parts(3127, 10000), y: Q::from_parts(329, 1000) },
                Illuminant::D75 => Chromaticity { x: Q::from_parts(29903, 100000), y: Q::from_parts(984, 3125) },
                Illuminant::E => Chromaticity { x: Q::from_parts(1, 3), y: Q::from_parts(1, 3) },
                Illuminant::FL1 => Chromaticity { x: Q::from_parts(3131, 10000), y: Q::from_parts(3371, 10000) },
                Illuminant::FL2 => Chromaticity { x: Q::from_parts(3721, 10000), y: Q::from_parts(3751, 10000) },
                Illuminant::FL3 => Chromaticity { x: Q::from_parts(4091, 10000), y: Q::from_parts(3941, 10000) },
                Illuminant::FL4 => Chromaticity { x: Q::from_parts(2201, 5000), y: Q::from_parts(4031, 10000) },
                Illuminant::FL5 => Chromaticity { x: Q::from_parts(1569, 5000), y: Q::from_parts(863, 2500) },
                Illuminant::FL6 => Chromaticity { x: Q::from_parts(3779, 10000), y: Q::from_parts(1941, 5000) },
                Illuminant::FL7 => Chromaticity { x: Q::from_parts(3129, 10000), y: Q::from_parts(823, 2500) },
                Illuminant::FL8 => Chromaticity { x: Q::from_parts(1729, 5000), y: Q::from_parts(1793, 5000) },
                Illuminant::FL9 => Chromaticity { x: Q::from_parts(3741, 10000), y: Q::from_parts(3727, 10000) },
                Illuminant::FL10 => Chromaticity { x: Q::from_parts(1729, 5000), y: Q::from_parts(897, 2500) },
                Illuminant::FL11 => Chromaticity { x: Q::from_parts(761, 2000), y: Q::from_parts(3769, 10000) },
                Illuminant::FL12 => Chromaticity { x: Q::from_parts(437, 1000), y: Q::from_parts(2021, 5000) },
                Illuminant::FL31 => Chromaticity { x: Q::from_parts(4407, 10000), y: Q::from_parts(4033, 10000) },
                Illuminant::FL32 => Chromaticity { x: Q::from_parts(238, 625), y: Q::from_parts(1867, 5000) },
                Illuminant::FL33 => Chromaticity { x: Q::from_parts(3153, 10000), y: Q::from_parts(3439, 10000) },
                Illuminant::FL34 => Chromaticity { x: Q::from_parts(4429, 10000), y: Q::from_parts(4043, 10000) },
                Illuminant::FL35 => Chromaticity { x: Q::from_parts(3749, 10000), y: Q::from_parts(459, 1250) },
                Illuminant::FL36 => Chromaticity { x: Q::from_parts(218, 625), y: Q::from_parts(9, 25) },
                Illuminant::FL37 => Chromaticity { x: Q::from_parts(274, 625), y: Q::from_parts(809, 2000) },
                Illuminant::FL38 => Chromaticity { x: Q::from_parts(191, 500), y: Q::from_parts(479, 1250) },
                Illuminant::FL39 => Chromaticity { x: Q::from_parts(3499, 10000), y: Q::from_parts(3591, 10000) },
                Illuminant::FL310 => Chromaticity { x: Q::from_parts(691, 2000), y: Q::from_parts(89, 250) },
                Illuminant::FL311 => Chromaticity { x: Q::from_parts(649, 2000), y: Q::from_parts(1717, 5000) },
                Illuminant::FL312 => Chromaticity { x: Q::from_parts(4377, 10000), y: Q::from_parts(4037, 10000) },
                Illuminant::FL313 => Chromaticity { x: Q::from_parts(383, 1000), y: Q::from_parts(931, 2500) },
                Illuminant::FL314 => Chromaticity { x: Q::from_parts(3447, 10000), y: Q::from_parts(3609, 10000) },
                Illuminant::FL315 => Chromaticity { x: Q::from_parts(3127, 10000), y: Q::from_parts(411, 1250) },
                Illuminant::HP1 => Chromaticity { x: Q::from_parts(533, 1000), y: Q::from_parts(83, 200) },
                Illuminant::HP2 => Chromaticity { x: Q::from_parts(2389, 5000), y: Q::from_parts(2079, 5000) },
                Illuminant::HP3 => Chromaticity { x: Q::from_parts(2151, 5000), y: Q::from_parts(163, 400) },
                Illuminant::HP4 => Chromaticity { x: Q::from_parts(953, 2500), y: Q::from_parts(3797, 10000) },
                Illuminant::HP5 => Chromaticity { x: Q::from_parts(236, 625), y: Q::from_parts(3713, 10000) },
            }
        },
        StandardObserver::Ten => {
            match i {
                Illuminant::A => Chromaticity { x: Q::from_parts(45117, 100000), y: Q::from_parts(20297, 50000) },
                Illuminant::B => Chromaticity { x: Q::from_parts(1749, 5000), y: Q::from_parts(3527, 10000) },
                Illuminant::C => Chromaticity { x: Q::from_parts(31039, 100000), y: Q::from_parts(6381, 20000) },
                Illuminant::D50 => Chromaticity { x: Q::from_parts(34773, 100000), y: Q::from_parts(2247, 6250) },
                Illuminant::D55 => Chromaticity { x: Q::from_parts(8353, 25000), y: Q::from_parts(34877, 100000) },
                Illuminant::D60 => Chromaticity { x: Q::from_parts(16149346335791, 50000000000000), y: Q::from_parts(339275732345997, 1000000000000000) },
                Illuminant::D65 => Chromaticity { x: Q::from_parts(15691, 50000), y: Q::from_parts(331, 1000) },
                Illuminant::D75 => Chromaticity { x: Q::from_parts(1873, 6250), y: Q::from_parts(1587, 5000) },
                Illuminant::E => Chromaticity { x: Q::from_parts(1, 3), y: Q::from_parts(1, 3) },
                Illuminant::FL1 => Chromaticity { x: Q::from_parts(31811, 100000), y: Q::from_parts(33559, 100000) },
                Illuminant::FL2 => Chromaticity { x: Q::from_parts(1517, 4000), y: Q::from_parts(36733, 100000) },
                Illuminant::FL3 => Chromaticity { x: Q::from_parts(41761, 100000), y: Q::from_parts(9581, 25000) },
                Illuminant::FL4 => Chromaticity { x: Q::from_parts(1123, 2500), y: Q::from_parts(19537, 50000) },
                Illuminant::FL5 => Chromaticity { x: Q::from_parts(1279, 4000), y: Q::from_parts(17123, 50000) },
                Illuminant::FL6 => Chromaticity { x: Q::from_parts(1933, 5000), y: Q::from_parts(37847, 100000) },
                Illuminant::FL7 => Chromaticity { x: Q::from_parts(31569, 100000), y: Q::from_parts(206, 625) },
                Illuminant::FL8 => Chromaticity { x: Q::from_parts(17451, 50000), y: Q::from_parts(35939, 100000) },
                Illuminant::FL9 => Chromaticity { x: Q::from_parts(37829, 100000), y: Q::from_parts(7409, 20000) },
                Illuminant::FL10 => Chromaticity { x: Q::from_parts(3509, 10000), y: Q::from_parts(8861, 25000) },
                Illuminant::FL11 => Chromaticity { x: Q::from_parts(38541, 100000), y: Q::from_parts(37123, 100000) },
                Illuminant::FL12 => Chromaticity { x: Q::from_parts(1383, 3125), y: Q::from_parts(39717, 100000) },
                Illuminant::FL31 => Chromaticity { x: Q::from_parts(449830684010003, 1000000000000000), y: Q::from_parts(195115702160633, 500000000000000) },
                Illuminant::FL32 => Chromaticity { x: Q::from_parts(386924116672933, 1000000000000000), y: Q::from_parts(365756034732821, 1000000000000000) },
                Illuminant::FL33 => Chromaticity { x: Q::from_parts(64235397371173, 200000000000000), y: Q::from_parts(340501092654981, 1000000000000000) },
                Illuminant::FL34 => Chromaticity { x: Q::from_parts(89624255022799, 200000000000000), y: Q::from_parts(198538556071241, 500000000000000) },
                Illuminant::FL35 => Chromaticity { x: Q::from_parts(75562833321779, 200000000000000), y: Q::from_parts(18331288348153, 50000000000000) },
                Illuminant::FL36 => Chromaticity { x: Q::from_parts(21998529936469, 62500000000000), y: Q::from_parts(361094432889677, 1000000000000000) },
                Illuminant::FL37 => Chromaticity { x: Q::from_parts(222154604405461, 500000000000000), y: Q::from_parts(396791387314871, 1000000000000000) },
                Illuminant::FL38 => Chromaticity { x: Q::from_parts(387588931999771, 1000000000000000), y: Q::from_parts(376305569410173, 1000000000000000) },
                Illuminant::FL39 => Chromaticity { x: Q::from_parts(354688990710449, 1000000000000000), y: Q::from_parts(353445033593383, 1000000000000000) },
                Illuminant::FL310 => Chromaticity { x: Q::from_parts(218340495209, 625000000000), y: Q::from_parts(354984421140869, 1000000000000000) },
                Illuminant::FL311 => Chromaticity { x: Q::from_parts(4115849696189, 12500000000000), y: Q::from_parts(338865386643537, 1000000000000000) },
                Illuminant::FL312 => Chromaticity { x: Q::from_parts(442252080438001, 1000000000000000), y: Q::from_parts(100305137767813, 250000000000000) },
                Illuminant::FL313 => Chromaticity { x: Q::from_parts(386275268780817, 1000000000000000), y: Q::from_parts(187141595475293, 500000000000000) },
                Illuminant::FL314 => Chromaticity { x: Q::from_parts(347255078638291, 1000000000000000), y: Q::from_parts(18340412125209, 50000000000000) },
                Illuminant::FL315 => Chromaticity { x: Q::from_parts(157306998954623, 500000000000000), y: Q::from_parts(333377149377113, 1000000000000000) },
                Illuminant::HP1 => Chromaticity { x: Q::from_parts(543334600247307, 1000000000000000), y: Q::from_parts(405289298480431, 1000000000000000) },
                Illuminant::HP2 => Chromaticity { x: Q::from_parts(482647330648721, 1000000000000000), y: Q::from_parts(82163128835937, 200000000000000) },
                Illuminant::HP3 => Chromaticity { x: Q::from_parts(217780017251977, 500000000000000), y: Q::from_parts(398801084399711, 1000000000000000) },
                Illuminant::HP4 => Chromaticity { x: Q::from_parts(385193641123543, 1000000000000000), y: Q::from_parts(73655095848203, 200000000000000) },
                Illuminant::HP5 => Chromaticity { x: Q::from_parts(190158207803319, 500000000000000), y: Q::from_parts(366617114797851, 1000000000000000) },
            }
        },
    }
}

} // verus!
