use vstd::prelude::*;

verus! {

/// A car that drives on roads.
pub trait Sedan {
    spec fn road_text(&self) -> Seq<char>;

    fn go_road(&self) -> (r: &str)
        ensures
            r@ == self.road_text(),
    ;
}

/// A car that drives on roads and off them.
pub trait SUV {
    spec fn road_text(&self) -> Seq<char>;

    spec fn offroad_text(&self) -> Seq<char>;

    fn go_road(&self) -> (r: &str)
        ensures
            r@ == self.road_text(),
    ;

    fn go_offroad(&self) -> (r: &str)
        ensures
            r@ == self.offroad_text(),
    ;
}

/// Makes a matching family of cars of one brand.
pub trait AutoFactory {
    type SedanType: Sedan;

    type SUVType: SUV;

    fn create_sedan(&self) -> Self::SedanType;

    fn create_suv(&self) -> Self::SUVType;
}

pub struct BMWSedan;

impl Sedan for BMWSedan {
    open spec fn road_text(&self) -> Seq<char> {
        "Bmw sedan is going on the road"@
    }

    fn go_road(&self) -> (r: &str) {
        "Bmw sedan is going on the road"
    }
}

pub struct BMWSUV;

impl SUV for BMWSUV {
    open spec fn road_text(&self) -> Seq<char> {
        "BMW SUV is going on the road"@
    }

    open spec fn offroad_text(&self) -> Seq<char> {
        "BMW SUV is going offroad"@
    }

    fn go_road(&self) -> (r: &str) {
        "BMW SUV is going on the road"
    }

    fn go_offroad(&self) -> (r: &str) {
        "BMW SUV is going offroad"
    }
}

pub struct MercedesSedan;

impl Sedan for MercedesSedan {
    open spec fn road_text(&self) -> Seq<char> {
        "Mercedes sedan is going on the road"@
    }

    fn go_road(&self) -> (r: &str) {
        "Mercedes sedan is going on the road"
    }
}

pub struct MercedesSUV;

impl SUV for MercedesSUV {
    open spec fn road_text(&self) -> Seq<char> {
        "Mercedes SUV is going on the road"@
    }

    open spec fn offroad_text(&self) -> Seq<char> {
        "Mercedes SUV is going offroad"@
    }

    fn go_road(&self) -> (r: &str) {
        "Mercedes SUV is going on the road"
    }

    fn go_offroad(&self) -> (r: &str) {
        "Mercedes SUV is going offroad"
    }
}

pub struct BMWFactory;

impl AutoFactory for BMWFactory {
    type SedanType = BMWSedan;

    type SUVType = BMWSUV;

    fn create_sedan(&self) -> BMWSedan {
        BMWSedan {}
    }

    fn create_suv(&self) -> BMWSUV {
        BMWSUV {}
    }
}

pub struct MercedesFactory;

impl AutoFactory for MercedesFactory {
    type SedanType = MercedesSedan;

    type SUVType = MercedesSUV;

    fn create_sedan(&self) -> MercedesSedan {
        MercedesSedan {}
    }

    fn create_suv(&self) -> MercedesSUV {
        MercedesSUV {}
    }
}

} // verus!
