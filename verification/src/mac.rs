//! Which Mac a model identifier names.

use crate::apple::MacType;
use crate::text::{chars_of, reads};
use vstd::prelude::*;
use vstd::string::*;

verus! {

/// The type of Mac and the details that a model identifier names.
pub open spec fn mac_model_of(id: Seq<char>) -> Option<(MacType, Seq<char>)> {
    if id == "Macmini9,1"@ {
        Some((MacType::MacMini, "M1, 2020"@))
    } else if id == "ADP3,2"@ {
        Some((MacType::MacMini, "Developer Transition Kit"@))
    } else if id == "Macmini8,1"@ {
        Some((MacType::MacMini, "2018"@))
    } else if id == "Macmini7,1"@ {
        Some((MacType::MacMini, "Late 2014"@))
    } else if id == "Macmini6,2"@ {
        Some((MacType::MacMini, "Late 2012"@))
    } else if id == "Macmini6,1"@ {
        Some((MacType::MacMini, "Late 2012"@))
    } else if id == "Macmini5,3"@ {
        Some((MacType::MacMini, "Mid 2011, Server"@))
    } else if id == "Macmini5,2"@ {
        Some((MacType::MacMini, "Mid 2011"@))
    } else if id == "Macmini5,1"@ {
        Some((MacType::MacMini, "Mid 2011"@))
    } else if id == "Macmini4,1"@ {
        Some((MacType::MacMini, "Mid 2010"@))
    } else if id == "iMac21,1"@ {
        Some((MacType::IMac, "24-inch, M1, 2021"@))
    } else if id == "iMac20,2"@ {
        Some((MacType::IMac, "Retina 5K, 27-inch, 2020; 5700/XT"@))
    } else if id == "iMac20,1"@ {
        Some((MacType::IMac, "Retina 5K, 27-inch, 2020"@))
    } else if id == "iMac19,2"@ {
        Some((MacType::IMac, "Retina 4K, 21.5-inch, 2019"@))
    } else if id == "iMac19,1"@ {
        Some((MacType::IMac, "Retina 5K, 27-inch, 2019"@))
    } else if id == "iMacPro1,1"@ {
        Some((MacType::IMacPro, "2017"@))
    } else if id == "iMac18,3"@ {
        Some((MacType::IMac, "Retina 5K, 27-inch, 2017"@))
    } else if id == "iMac18,2"@ {
        Some((MacType::IMac, "Retina 4K, 21.5-inch, 2017"@))
    } else if id == "iMac18,1"@ {
        Some((MacType::IMac, "21.5-inch, 2017"@))
    } else if id == "iMac17,1"@ {
        Some((MacType::IMac, "Retina 5K, 27-inch, Late 2015"@))
    } else if id == "iMac16,2"@ {
        Some((MacType::IMac, "Retina 4K, 21.5-inch, Late 2015"@))
    } else if id == "iMac16,1"@ {
        Some((MacType::IMac, "21.5-inch, Late 2015"@))
    } else if id == "iMac15,1"@ {
        Some((MacType::IMac, "Retina 5K, 27-inch, Late 2014"@))
    } else if id == "iMac14,4"@ {
        Some((MacType::IMac, "21.5-inch, Mid 2014"@))
    } else if id == "iMac14,3"@ {
        Some((MacType::IMac, "21.5-inch, Late 2013"@))
    } else if id == "iMac14,1"@ {
        Some((MacType::IMac, "21.5-inch, Late 2013"@))
    } else if id == "iMac14,2"@ {
        Some((MacType::IMac, "27-inch, Late 2013"@))
    } else if id == "iMac13,3"@ {
        Some((MacType::IMac, "Late 2012"@))
    } else if id == "iMac13,2"@ {
        Some((MacType::IMac, "27-inch, Late 2012"@))
    } else if id == "iMac13,1"@ {
        Some((MacType::IMac, "21.5-inch, Late 2012"@))
    } else if id == "iMac12,2"@ {
        Some((MacType::IMac, "27-inch, Mid 2011"@))
    } else if id == "iMac12,1"@ {
        Some((MacType::IMac, "21.5-inch, Mid 2011"@))
    } else if id == "iMac11,3"@ {
        Some((MacType::IMac, "27-inch, Mid 2010"@))
    } else if id == "iMac11,2"@ {
        Some((MacType::IMac, "21.5-inch, Mid 2010"@))
    } else if id == "MacPro7,1"@ {
        Some((MacType::MacPro, "2019"@))
    } else if id == "MacPro6,1"@ {
        Some((MacType::MacPro, "Late 2013"@))
    } else if id == "MacPro5,1"@ {
        Some((MacType::MacPro, "Mid 2010"@))
    } else if id == "MacPro4,1"@ {
        Some((MacType::MacPro, "Early 2009"@))
    } else if id == "MacBook10,1"@ {
        Some((MacType::MacBook, "2017"@))
    } else if id == "MacBook9,1"@ {
        Some((MacType::MacBook, "2016"@))
    } else if id == "MacBook8,1"@ {
        Some((MacType::MacBook, "2015"@))
    } else if id == "Mac14,2"@ {
        Some((MacType::MacBookAir, "13-inch, 2022 (M2)"@))
    } else if id == "MacBookAir10,1"@ {
        Some((MacType::MacBookAir, "13-inch, 2020 (M1)"@))
    } else if id == "MacBookAir9,1"@ {
        Some((MacType::MacBookAir, "13-inch, 2020"@))
    } else if id == "MacBookAir8,2"@ {
        Some((MacType::MacBookAir, "13-inch, 2019"@))
    } else if id == "MacBookAir8,1"@ {
        Some((MacType::MacBookAir, "13-inch, 2018"@))
    } else if id == "MacBookAir7,2"@ {
        Some((MacType::MacBookAir, "13-inch, 2015"@))
    } else if id == "MacBookAir7,1"@ {
        Some((MacType::MacBookAir, "11-inch, 2015"@))
    } else if id == "MacBookAir6,2"@ {
        Some((MacType::MacBookAir, "13-inch, 2014"@))
    } else if id == "MacBookAir6,1"@ {
        Some((MacType::MacBookAir, "11-inch, 2014"@))
    } else if id == "MacBookAir5,2"@ {
        Some((MacType::MacBookAir, "13-inch, 2012"@))
    } else if id == "MacBookAir5,1"@ {
        Some((MacType::MacBookAir, "11-inch, 2012"@))
    } else if id == "Mac14,7"@ {
        Some((MacType::MacBookPro, "13-inch, 2022 (M2)"@))
    } else if id == "MacBookPro18,4"@ {
        Some((MacType::MacBookPro, "14-inch, 2021 (M1 Max)"@))
    } else if id == "MacBookPro18,3"@ {
        Some((MacType::MacBookPro, "14-inch, 2021 (M1 Pro)"@))
    } else if id == "MacBookPro18,2"@ {
        Some((MacType::MacBookPro, "16-inch, 2021 (M1 Max)"@))
    } else if id == "MacBookPro18,1"@ {
        Some((MacType::MacBookPro, "16-inch, 2021 (M1 Pro)"@))
    } else if id == "MacBookPro17,1"@ {
        Some((MacType::MacBookPro, "13-inch, 2020 (M1)"@))
    } else if id == "MacBookPro16,3"@ {
        Some((MacType::MacBookPro, "13-inch, 2020"@))
    } else if id == "MacBookPro16,2"@ {
        Some((MacType::MacBookPro, "13-inch, 2019"@))
    } else if id == "MacBookPro16,1"@ {
        Some((MacType::MacBookPro, "16-inch, 2019"@))
    } else if id == "MacBookPro15,4"@ {
        Some((MacType::MacBookPro, "13-inch, 2019"@))
    } else if id == "MacBookPro15,3"@ {
        Some((MacType::MacBookPro, "15-inch, 2019"@))
    } else if id == "MacBookPro15,2"@ {
        Some((MacType::MacBookPro, "13-inch, 2019"@))
    } else if id == "MacBookPro15,1"@ {
        Some((MacType::MacBookPro, "15-inch, 2018"@))
    } else if id == "MacBookPro14,3"@ {
        Some((MacType::MacBookPro, "15-inch, 2017"@))
    } else if id == "MacBookPro14,2"@ {
        Some((MacType::MacBookPro, "13-inch, 2017"@))
    } else if id == "MacBookPro14,1"@ {
        Some((MacType::MacBookPro, "13-inch, 2017"@))
    } else if id == "MacBookPro13,3"@ {
        Some((MacType::MacBookPro, "15-inch, 2016"@))
    } else if id == "MacBookPro13,2"@ {
        Some((MacType::MacBookPro, "13-inch, 2016"@))
    } else if id == "MacBookPro13,1"@ {
        Some((MacType::MacBookPro, "13-inch, 2016"@))
    } else if id == "MacBookPro12,1"@ {
        Some((MacType::MacBookPro, "13-inch, 2015"@))
    } else if id == "MacBookPro11,5"@ {
        Some((MacType::MacBookPro, "15-inch, 2015"@))
    } else if id == "MacBookPro11,4"@ {
        Some((MacType::MacBookPro, "15-inch, 2015"@))
    } else if id == "MacBookPro11,3"@ {
        Some((MacType::MacBookPro, "15-inch, 2014"@))
    } else if id == "MacBookPro11,2"@ {
        Some((MacType::MacBookPro, "15-inch, 2014"@))
    } else if id == "MacBookPro11,1"@ {
        Some((MacType::MacBookPro, "13-inch, 2014"@))
    } else if id == "MacBookPro10,2"@ {
        Some((MacType::MacBookPro, "15-inch, 2013"@))
    } else if id == "MacBookPro10,1"@ {
        Some((MacType::MacBookPro, "13-inch, 2013"@))
    } else if id == "MacBookPro9,2"@ {
        Some((MacType::MacBookPro, "15-inch, 2012"@))
    } else if id == "MacBookPro9,1"@ {
        Some((MacType::MacBookPro, "13-inch, 2012"@))
    } else if id == "Mac13,1"@ {
        Some((MacType::MacStudio, "2022 (M1 Max)"@))
    } else if id == "Mac13,2"@ {
        Some((MacType::MacStudio, "2022 (M1 Ultra)"@))
    } else {
        None
    }
}

/// Whether `r` is the model, or the lack of one, that `want` names.
pub open spec fn is_model(r: Option<(MacType, &'static str)>, want: Option<(MacType, Seq<char>)>) -> bool {
    match r {
        Some((mac, details)) => want == Some((mac, details@)),
        None => want is None,
    }
}

/// The type of Mac and the details that the model identifier names.
pub fn read_mac_model(model_id: &str) -> (r: Option<(MacType, &'static str)>)
    ensures
        is_model(r, mac_model_of(model_id@)),
{
    let v = chars_of(model_id);
    if reads(&v, "Macmini9,1") {
        Some((MacType::MacMini, "M1, 2020"))
    } else if reads(&v, "ADP3,2") {
        Some((MacType::MacMini, "Developer Transition Kit"))
    } else if reads(&v, "Macmini8,1") {
        Some((MacType::MacMini, "2018"))
    } else if reads(&v, "Macmini7,1") {
        Some((MacType::MacMini, "Late 2014"))
    } else if reads(&v, "Macmini6,2") {
        Some((MacType::MacMini, "Late 2012"))
    } else if reads(&v, "Macmini6,1") {
        Some((MacType::MacMini, "Late 2012"))
    } else if reads(&v, "Macmini5,3") {
        Some((MacType::MacMini, "Mid 2011, Server"))
    } else if reads(&v, "Macmini5,2") {
        Some((MacType::MacMini, "Mid 2011"))
    } else if reads(&v, "Macmini5,1") {
        Some((MacType::MacMini, "Mid 2011"))
    } else if reads(&v, "Macmini4,1") {
        Some((MacType::MacMini, "Mid 2010"))
    } else if reads(&v, "iMac21,1") {
        Some((MacType::IMac, "24-inch, M1, 2021"))
    } else if reads(&v, "iMac20,2") {
        Some((MacType::IMac, "Retina 5K, 27-inch, 2020; 5700/XT"))
    } else if reads(&v, "iMac20,1") {
        Some((MacType::IMac, "Retina 5K, 27-inch, 2020"))
    } else if reads(&v, "iMac19,2") {
        Some((MacType::IMac, "Retina 4K, 21.5-inch, 2019"))
    } else if reads(&v, "iMac19,1") {
        Some((MacType::IMac, "Retina 5K, 27-inch, 2019"))
    } else if reads(&v, "iMacPro1,1") {
        Some((MacType::IMacPro, "2017"))
    } else if reads(&v, "iMac18,3") {
        Some((MacType::IMac, "Retina 5K, 27-inch, 2017"))
    } else if reads(&v, "iMac18,2") {
        Some((MacType::IMac, "Retina 4K, 21.5-inch, 2017"))
    } else if reads(&v, "iMac18,1") {
        Some((MacType::IMac, "21.5-inch, 2017"))
    } else if reads(&v, "iMac17,1") {
        Some((MacType::IMac, "Retina 5K, 27-inch, Late 2015"))
    } else if reads(&v, "iMac16,2") {
        Some((MacType::IMac, "Retina 4K, 21.5-inch, Late 2015"))
    } else if reads(&v, "iMac16,1") {
        Some((MacType::IMac, "21.5-inch, Late 2015"))
    } else if reads(&v, "iMac15,1") {
        Some((MacType::IMac, "Retina 5K, 27-inch, Late 2014"))
    } else if reads(&v, "iMac14,4") {
        Some((MacType::IMac, "21.5-inch, Mid 2014"))
    } else if reads(&v, "iMac14,3") {
        Some((MacType::IMac, "21.5-inch, Late 2013"))
    } else if reads(&v, "iMac14,1") {
        Some((MacType::IMac, "21.5-inch, Late 2013"))
    } else if reads(&v, "iMac14,2") {
        Some((MacType::IMac, "27-inch, Late 2013"))
    } else if reads(&v, "iMac13,3") {
        Some((MacType::IMac, "Late 2012"))
    } else if reads(&v, "iMac13,2") {
        Some((MacType::IMac, "27-inch, Late 2012"))
    } else if reads(&v, "iMac13,1") {
        Some((MacType::IMac, "21.5-inch, Late 2012"))
    } else if reads(&v, "iMac12,2") {
        Some((MacType::IMac, "27-inch, Mid 2011"))
    } else if reads(&v, "iMac12,1") {
        Some((MacType::IMac, "21.5-inch, Mid 2011"))
    } else if reads(&v, "iMac11,3") {
        Some((MacType::IMac, "27-inch, Mid 2010"))
    } else if reads(&v, "iMac11,2") {
        Some((MacType::IMac, "21.5-inch, Mid 2010"))
    } else if reads(&v, "MacPro7,1") {
        Some((MacType::MacPro, "2019"))
    } else if reads(&v, "MacPro6,1") {
        Some((MacType::MacPro, "Late 2013"))
    } else if reads(&v, "MacPro5,1") {
        Some((MacType::MacPro, "Mid 2010"))
    } else if reads(&v, "MacPro4,1") {
        Some((MacType::MacPro, "Early 2009"))
    } else if reads(&v, "MacBook10,1") {
        Some((MacType::MacBook, "2017"))
    } else if reads(&v, "MacBook9,1") {
        Some((MacType::MacBook, "2016"))
    } else if reads(&v, "MacBook8,1") {
        Some((MacType::MacBook, "2015"))
    } else if reads(&v, "Mac14,2") {
        Some((MacType::MacBookAir, "13-inch, 2022 (M2)"))
    } else if reads(&v, "MacBookAir10,1") {
        Some((MacType::MacBookAir, "13-inch, 2020 (M1)"))
    } else if reads(&v, "MacBookAir9,1") {
        Some((MacType::MacBookAir, "13-inch, 2020"))
    } else if reads(&v, "MacBookAir8,2") {
        Some((MacType::MacBookAir, "13-inch, 2019"))
    } else if reads(&v, "MacBookAir8,1") {
        Some((MacType::MacBookAir, "13-inch, 2018"))
    } else if reads(&v, "MacBookAir7,2") {
        Some((MacType::MacBookAir, "13-inch, 2015"))
    } else if reads(&v, "MacBookAir7,1") {
        Some((MacType::MacBookAir, "11-inch, 2015"))
    } else if reads(&v, "MacBookAir6,2") {
        Some((MacType::MacBookAir, "13-inch, 2014"))
    } else if reads(&v, "MacBookAir6,1") {
        Some((MacType::MacBookAir, "11-inch, 2014"))
    } else if reads(&v, "MacBookAir5,2") {
        Some((MacType::MacBookAir, "13-inch, 2012"))
    } else if reads(&v, "MacBookAir5,1") {
        Some((MacType::MacBookAir, "11-inch, 2012"))
    } else if reads(&v, "Mac14,7") {
        Some((MacType::MacBookPro, "13-inch, 2022 (M2)"))
    } else if reads(&v, "MacBookPro18,4") {
        Some((MacType::MacBookPro, "14-inch, 2021 (M1 Max)"))
    } else if reads(&v, "MacBookPro18,3") {
        Some((MacType::MacBookPro, "14-inch, 2021 (M1 Pro)"))
    } else if reads(&v, "MacBookPro18,2") {
        Some((MacType::MacBookPro, "16-inch, 2021 (M1 Max)"))
    } else if reads(&v, "MacBookPro18,1") {
        Some((MacType::MacBookPro, "16-inch, 2021 (M1 Pro)"))
    } else if reads(&v, "MacBookPro17,1") {
        Some((MacType::MacBookPro, "13-inch, 2020 (M1)"))
    } else if reads(&v, "MacBookPro16,3") {
        Some((MacType::MacBookPro, "13-inch, 2020"))
    } else if reads(&v, "MacBookPro16,2") {
        Some((MacType::MacBookPro, "13-inch, 2019"))
    } else if reads(&v, "MacBookPro16,1") {
        Some((MacType::MacBookPro, "16-inch, 2019"))
    } else if reads(&v, "MacBookPro15,4") {
        Some((MacType::MacBookPro, "13-inch, 2019"))
    } else if reads(&v, "MacBookPro15,3") {
        Some((MacType::MacBookPro, "15-inch, 2019"))
    } else if reads(&v, "MacBookPro15,2") {
        Some((MacType::MacBookPro, "13-inch, 2019"))
    } else if reads(&v, "MacBookPro15,1") {
        Some((MacType::MacBookPro, "15-inch, 2018"))
    } else if reads(&v, "MacBookPro14,3") {
        Some((MacType::MacBookPro, "15-inch, 2017"))
    } else if reads(&v, "MacBookPro14,2") {
        Some((MacType::MacBookPro, "13-inch, 2017"))
    } else if reads(&v, "MacBookPro14,1") {
        Some((MacType::MacBookPro, "13-inch, 2017"))
    } else if reads(&v, "MacBookPro13,3") {
        Some((MacType::MacBookPro, "15-inch, 2016"))
    } else if reads(&v, "MacBookPro13,2") {
        Some((MacType::MacBookPro, "13-inch, 2016"))
    } else if reads(&v, "MacBookPro13,1") {
        Some((MacType::MacBookPro, "13-inch, 2016"))
    } else if reads(&v, "MacBookPro12,1") {
        Some((MacType::MacBookPro, "13-inch, 2015"))
    } else if reads(&v, "MacBookPro11,5") {
        Some((MacType::MacBookPro, "15-inch, 2015"))
    } else if reads(&v, "MacBookPro11,4") {
        Some((MacType::MacBookPro, "15-inch, 2015"))
    } else if reads(&v, "MacBookPro11,3") {
        Some((MacType::MacBookPro, "15-inch, 2014"))
    } else if reads(&v, "MacBookPro11,2") {
        Some((MacType::MacBookPro, "15-inch, 2014"))
    } else if reads(&v, "MacBookPro11,1") {
        Some((MacType::MacBookPro, "13-inch, 2014"))
    } else if reads(&v, "MacBookPro10,2") {
        Some((MacType::MacBookPro, "15-inch, 2013"))
    } else if reads(&v, "MacBookPro10,1") {
        Some((MacType::MacBookPro, "13-inch, 2013"))
    } else if reads(&v, "MacBookPro9,2") {
        Some((MacType::MacBookPro, "15-inch, 2012"))
    } else if reads(&v, "MacBookPro9,1") {
        Some((MacType::MacBookPro, "13-inch, 2012"))
    } else if reads(&v, "Mac13,1") {
        Some((MacType::MacStudio, "2022 (M1 Max)"))
    } else if reads(&v, "Mac13,2") {
        Some((MacType::MacStudio, "2022 (M1 Ultra)"))
    } else {
        None
    }
}

/// How a model is shown: the type's listing, then the details in brackets,
/// and `Unknown` where the model is not known.
pub open spec fn model_name_of(model: Option<(MacType, Seq<char>)>) -> Seq<char> {
    match model {
        Some((mac, details)) => mac.listing() + " ("@ + details + ")"@,
        None => "Unknown"@,
    }
}

/// How the model of the given identifier is shown.
pub fn model_name(model_id: Option<&str>) -> (r: String)
    ensures
        r@ == model_name_of(
            match model_id {
                Some(id) => mac_model_of(id@),
                None => None,
            },
        ),
{
    let model = match model_id {
        Some(id) => read_mac_model(id),
        None => None,
    };
    match model {
        Some((mac, details)) => {
            let mut s = String::from_str(mac.as_str());
            s.append(" (");
            s.append(details);
            s.append(")");
            s
        },
        None => String::from_str("Unknown"),
    }
}

} // verus!
