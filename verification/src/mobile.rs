//! Mobile phone number validation with locale support.
//!
//! A fixed table maps each supported locale to the pattern its numbers must
//! match; validation looks a locale up, or tries every pattern.

use vstd::prelude::*;
use vstd::string::StringExecFns;
use crate::matching::{pattern_compiles, regex_matches};

verus! {

/// The number of supported locales.
pub const LOCALE_COUNT: usize = 168;

pub open spec fn locale_chunk_0(i: int) -> (Seq<char>, Seq<char>) {
    if i == 0 {
        ("am-AM"@, "^(\\+?374|0)(33|4[134]|55|77|88|9[13-689])\\d{6}$"@)
    } else if i == 1 {
        ("ar-AE"@, "^((\\+?971)|0)?5[024568]\\d{7}$"@)
    } else if i == 2 {
        ("ar-BH"@, "^(\\+?973)?(3|6)\\d{7}$"@)
    } else if i == 3 {
        ("ar-DZ"@, "^(\\+?213|0)(5|6|7)\\d{8}$"@)
    } else if i == 4 {
        ("ar-EG"@, "^((\\+?20)|0)?1[0125]\\d{8}$"@)
    } else if i == 5 {
        ("ar-EH"@, "^(\\+?212|0)[\\s\\-]?(5288|5289)[\\s\\-]?\\d{5}$"@)
    } else if i == 6 {
        ("ar-IQ"@, "^(\\+?964|0)?7[0-9]\\d{8}$"@)
    } else if i == 7 {
        ("ar-JO"@, "^(\\+?962|0)?7[789]\\d{7}$"@)
    } else if i == 8 {
        ("ar-KW"@, "^(\\+?965)([569]\\d{7}|41\\d{6})$"@)
    } else if i == 9 {
        ("ar-LB"@, "^(\\+?961)?((3|81)\\d{6}|7\\d{7})$"@)
    } else if i == 10 {
        ("ar-LY"@, "^((\\+?218)|0)?(9[1-6]\\d{7}|[1-8]\\d{7,9})$"@)
    } else if i == 11 {
        ("ar-MA"@, "^(?:(?:\\+|00)212|0)[5-7]\\d{8}$"@)
    } else if i == 12 {
        ("ar-OM"@, "^((\\+|00)968)?([79][1-9])\\d{6}$"@)
    } else if i == 13 {
        ("ar-PS"@, "^(\\+?970|0)5[6|9](\\d{7})$"@)
    } else if i == 14 {
        ("ar-QA"@, "^(\\+?974|0)?([3567]\\d{7})$"@)
    } else if i == 15 {
        ("ar-SA"@, "^(!?(\\+?966)|0)?5\\d{8}$"@)
    } else if i == 16 {
        ("ar-SD"@, "^((\\+?249)|0)?(9[012369]|1[012])\\d{7}$"@)
    } else if i == 17 {
        ("ar-SY"@, "^(!?(\\+?963)|0)?9\\d{8}$"@)
    } else if i == 18 {
        ("ar-TN"@, "^(\\+?216)?[2459]\\d{7}$"@)
    } else if i == 19 {
        ("ar-YE"@, "^(((\\+|00)9677|0?7)[0137]\\d{7}|((\\+|00)967|0)[1-7]\\d{6})$"@)
    } else if i == 20 {
        ("az-AZ"@, "^(\\+994|0)(10|5[015]|7[07]|99)\\d{7}$"@)
    } else if i == 21 {
        ("be-BY"@, "^(\\+?375)?(24|25|29|33|44)\\d{7}$"@)
    } else if i == 22 {
        ("bg-BG"@, "^(\\+?359|0)?8[789]\\d{7}$"@)
    } else if i == 23 {
        ("bn-BD"@, "^(\\+?880|0)1[13456789][0-9]{8}$"@)
    } else if i == 24 {
        ("bs-BA"@, "^((((\\+|00)3876)|06))((([0-3]|[5-6])\\d{6})|(4\\d{7}))$"@)
    } else if i == 25 {
        ("ca-AD"@, "^(\\+376)?[346]\\d{5}$"@)
    } else if i == 26 {
        ("cs-CZ"@, "^(\\+?420)? ?[1-9][0-9]{2} ?[0-9]{3} ?[0-9]{3}$"@)
    } else if i == 27 {
        ("da-DK"@, "^(\\+?45)?\\s?\\d{2}\\s?\\d{2}\\s?\\d{2}\\s?\\d{2}$"@)
    } else {
        (""@, ""@)
    }
}

pub open spec fn locale_chunk_1(i: int) -> (Seq<char>, Seq<char>) {
    if i == 28 {
        ("de-AT"@, "^(\\+43|0)\\d{1,4}\\d{3,12}$"@)
    } else if i == 29 {
        ("de-CH"@, "^(\\+41|0)([1-9])\\d{1,9}$"@)
    } else if i == 30 {
        ("de-DE"@, "^((\\+49|0)1)(5[0-25-9]\\d|6([23]|0\\d?)|7([0-57-9]|6\\d))\\d{7,9}$"@)
    } else if i == 31 {
        ("de-LU"@, "^(\\+352)?((6\\d1)\\d{6})$"@)
    } else if i == 32 {
        ("dv-MV"@, "^(\\+?960)?(7[2-9]|9[1-9])\\d{5}$"@)
    } else if i == 33 {
        ("dz-BT"@, "^(\\+?975|0)?(17|16|77|02)\\d{6}$"@)
    } else if i == 34 {
        ("el-CY"@, "^(\\+?357?)?(9(9|7|6|5|4)\\d{6})$"@)
    } else if i == 35 {
        ("el-GR"@, "^(\\+?30|0)?6(8[5-9]|9[013-57-9])\\d{7}$"@)
    } else if i == 36 {
        ("en-AG"@, "^(?:\\+1|1)268(?:464|7(?:1[3-9]|[28]\\d|3[0246]|64|7[0-689]))\\d{4}$"@)
    } else if i == 37 {
        ("en-AI"@, "^(\\+?1|0)264(?:2(35|92)|4(?:6[1-2]|76|97)|5(?:3[6-9]|8[1-4])|7(?:2(4|9)|72))\\d{4}$"@)
    } else if i == 38 {
        ("en-AU"@, "^(\\+?61|0)4\\d{8}$"@)
    } else if i == 39 {
        ("en-BM"@, "^(\\+?1)?441(((3|7)\\d{6}$)|(5[0-3][0-9]\\d{4}$)|(59\\d{5}$))"@)
    } else if i == 40 {
        ("en-BS"@, "^(\\+?1[-\\s]?|0)?\\(?242\\)?[-\\s]?\\d{3}[-\\s]?\\d{4}$"@)
    } else if i == 41 {
        ("en-BW"@, "^(\\+?267)?(7[1-8]{1})\\d{6}$"@)
    } else if i == 42 {
        ("en-CA"@, "^((\\+1|1)?( |-)?)?(\\([2-9][0-9]{2}\\)|[2-9][0-9]{2})( |-)?([2-9][0-9]{2}( |-)?[0-9]{4})$"@)
    } else if i == 43 {
        ("en-GB"@, "^(\\+?44|0)7[1-9]\\d{8}$"@)
    } else if i == 44 {
        ("en-GG"@, "^(\\+?44|0)1481\\d{6}$"@)
    } else if i == 45 {
        ("en-GH"@, "^(\\+233|0)(20|50|24|54|27|57|26|56|23|53|28|55|59)\\d{7}$"@)
    } else if i == 46 {
        ("en-GY"@, "^(\\+592|0)6\\d{6}$"@)
    } else if i == 47 {
        ("en-HK"@, "^(\\+?852[-\\s]?)?[456789]\\d{3}[-\\s]?\\d{4}$"@)
    } else if i == 48 {
        ("en-IE"@, "^(\\+?353|0)8[356789]\\d{7}$"@)
    } else if i == 49 {
        ("en-IN"@, "^(\\+?91|0)?[6789]\\d{9}$"@)
    } else if i == 50 {
        ("en-JM"@, "^(\\+?876)?\\d{7}$"@)
    } else if i == 51 {
        ("en-KE"@, "^(\\+?254|0)(7|1)\\d{8}$"@)
    } else if i == 52 {
        ("en-KI"@, "^((\\+686|686)?)?( )?((6|7)(2|3|8)[0-9]{6})$"@)
    } else if i == 53 {
        ("en-KN"@, "^(?:\\+1|1)869(?:46\\d|48[89]|55[6-8]|66\\d|76[02-7])\\d{4}$"@)
    } else if i == 54 {
        ("en-LS"@, "^(\\+?266)(22|28|57|58|59|27|52)\\d{6}$"@)
    } else if i == 55 {
        ("en-MO"@, "^(\\+?853[-\\s]?)?[6]\\d{3}[-\\s]?\\d{4}$"@)
    } else {
        (""@, ""@)
    }
}

pub open spec fn locale_chunk_2(i: int) -> (Seq<char>, Seq<char>) {
    if i == 56 {
        ("en-MT"@, "^(\\+?356|0)?(99|79|77|21|27|22|25)[0-9]{6}$"@)
    } else if i == 57 {
        ("en-MU"@, "^(\\+?230|0)?\\d{8}$"@)
    } else if i == 58 {
        ("en-MW"@, "^(\\+?265|0)(((77|88|31|99|98|21)\\d{7})|(((111)|1)\\d{6})|(32000\\d{4}))$"@)
    } else if i == 59 {
        ("en-NA"@, "^(\\+?264|0)(6|8)\\d{7}$"@)
    } else if i == 60 {
        ("en-NG"@, "^(\\+?234|0)?[789]\\d{9}$"@)
    } else if i == 61 {
        ("en-NZ"@, "^(\\+?64|0)[28]\\d{7,9}$"@)
    } else if i == 62 {
        ("en-PG"@, "^(\\+?675|0)?(7\\d|8[18])\\d{6}$"@)
    } else if i == 63 {
        ("en-PH"@, "^(09|\\+639)\\d{9}$"@)
    } else if i == 64 {
        ("en-PK"@, "^((00|\\+)?92|0)3[0-6]\\d{8}$"@)
    } else if i == 65 {
        ("en-RW"@, "^(\\+?250|0)?[7]\\d{8}$"@)
    } else if i == 66 {
        ("en-SG"@, "^(\\+65)?[3689]\\d{7}$"@)
    } else if i == 67 {
        ("en-SL"@, "^(\\+?232|0)\\d{8}$"@)
    } else if i == 68 {
        ("en-SS"@, "^(\\+?211|0)(9[1257])\\d{7}$"@)
    } else if i == 69 {
        ("en-TZ"@, "^(\\+?255|0)?[67]\\d{8}$"@)
    } else if i == 70 {
        ("en-UG"@, "^(\\+?256|0)?[7]\\d{8}$"@)
    } else if i == 71 {
        ("en-US"@, "^((\\+1|1)?( |-)?)?(\\([2-9][0-9]{2}\\)|[2-9][0-9]{2})( |-)?([2-9][0-9]{2}( |-)?[0-9]{4})$"@)
    } else if i == 72 {
        ("en-ZA"@, "^(\\+?27|0)\\d{9}$"@)
    } else if i == 73 {
        ("en-ZM"@, "^(\\+?26)?0[79][567]\\d{7}$"@)
    } else if i == 74 {
        ("en-ZW"@, "^(\\+263)[0-9]{9}$"@)
    } else if i == 75 {
        ("es-AR"@, "^\\+?549(11|[2368]\\d)\\d{8}$"@)
    } else if i == 76 {
        ("es-BO"@, "^(\\+?591)?(6|7)\\d{7}$"@)
    } else if i == 77 {
        ("es-CL"@, "^(\\+?56|0)[2-9]\\d{1}\\d{7}$"@)
    } else if i == 78 {
        ("es-CO"@, "^(\\+?57)?3(0(0|1|2|4|5)|1\\d|2[0-4]|5(0|1))\\d{7}$"@)
    } else if i == 79 {
        ("es-CR"@, "^(\\+506)?[2-8]\\d{7}$"@)
    } else if i == 80 {
        ("es-CU"@, "^(\\+53|0053)?5\\d{7}$"@)
    } else if i == 81 {
        ("es-DO"@, "^(\\+?1)?8[024]9\\d{7}$"@)
    } else if i == 82 {
        ("es-EC"@, "^(\\+?593|0)([2-7]|9[2-9])\\d{7}$"@)
    } else if i == 83 {
        ("es-ES"@, "^(\\+?34)?[6|7]\\d{8}$"@)
    } else {
        (""@, ""@)
    }
}

pub open spec fn locale_chunk_3(i: int) -> (Seq<char>, Seq<char>) {
    if i == 84 {
        ("es-GT"@, "^(\\+?502)?[2|6|7]\\d{7}$"@)
    } else if i == 85 {
        ("es-HN"@, "^(\\+?504)?[9|8|3|2]\\d{7}$"@)
    } else if i == 86 {
        ("es-MX"@, "^(\\+?52)?(1|01)?\\d{10,11}$"@)
    } else if i == 87 {
        ("es-NI"@, "^(\\+?505)\\d{7,8}$"@)
    } else if i == 88 {
        ("es-PA"@, "^(\\+?507)\\d{7,8}$"@)
    } else if i == 89 {
        ("es-PE"@, "^(\\+?51)?9\\d{8}$"@)
    } else if i == 90 {
        ("es-PY"@, "^(\\+?595|0)9[9876]\\d{7}$"@)
    } else if i == 91 {
        ("es-SV"@, "^(\\+?503)?[67]\\d{7}$"@)
    } else if i == 92 {
        ("es-UY"@, "^(\\+598|0)9[1-9][\\d]{6}$"@)
    } else if i == 93 {
        ("es-VE"@, "^(\\+?58)?(2|4)\\d{9}$"@)
    } else if i == 94 {
        ("et-EE"@, "^(\\+?372)?\\s?(5|8[1-4])\\s?([0-9]\\s?){6,7}$"@)
    } else if i == 95 {
        ("fa-AF"@, "^(\\+93|0)?(2{1}[0-8]{1}|[3-5]{1}[0-4]{1})(\\d{7})$"@)
    } else if i == 96 {
        ("fa-IR"@, "^(\\+?98[\\-\\s]?|0)9[0-39]\\d[\\-\\s]?\\d{3}[\\-\\s]?\\d{4}$"@)
    } else if i == 97 {
        ("fi-FI"@, "^(\\+?358|0)\\s?(4[0-6]|50)\\s?(\\d\\s?){4,8}$"@)
    } else if i == 98 {
        ("fj-FJ"@, "^(\\+?679)?\\s?\\d{3}\\s?\\d{4}$"@)
    } else if i == 99 {
        ("fo-FO"@, "^(\\+?298)?\\s?\\d{2}\\s?\\d{2}\\s?\\d{2}$"@)
    } else if i == 100 {
        ("fr-BE"@, "^(\\+?32|0)4\\d{8}$"@)
    } else if i == 101 {
        ("fr-BF"@, "^(\\+226|0)[67]\\d{7}$"@)
    } else if i == 102 {
        ("fr-BJ"@, "^(\\+229)\\d{8}$"@)
    } else if i == 103 {
        ("fr-CA"@, "^((\\+1|1)?( |-)?)?(\\([2-9][0-9]{2}\\)|[2-9][0-9]{2})( |-)?([2-9][0-9]{2}( |-)?[0-9]{4})$"@)
    } else if i == 104 {
        ("fr-CD"@, "^(\\+?243|0)?(8|9)\\d{8}$"@)
    } else if i == 105 {
        ("fr-CF"@, "^(\\+?236| ?)(70|75|77|72|21|22)\\d{6}$"@)
    } else if i == 106 {
        ("fr-CH"@, "^(\\+41|0)([1-9])\\d{1,9}$"@)
    } else if i == 107 {
        ("fr-CM"@, "^(\\+?237)6[0-9]{8}$"@)
    } else if i == 108 {
        ("fr-FR"@, "^(\\+?33|0)[67]\\d{8}$"@)
    } else if i == 109 {
        ("fr-GF"@, "^(\\+?594|0|00594)[67]\\d{8}$"@)
    } else if i == 110 {
        ("fr-GP"@, "^(\\+?590|0|00590)[67]\\d{8}$"@)
    } else if i == 111 {
        ("fr-MQ"@, "^(\\+?596|0|00596)[67]\\d{8}$"@)
    } else {
        (""@, ""@)
    }
}

pub open spec fn locale_chunk_4(i: int) -> (Seq<char>, Seq<char>) {
    if i == 112 {
        ("fr-PF"@, "^(\\+?689)?8[789]\\d{6}$"@)
    } else if i == 113 {
        ("fr-RE"@, "^(\\+?262|0|00262)[67]\\d{8}$"@)
    } else if i == 114 {
        ("fr-WF"@, "^(\\+681)?\\d{6}$"@)
    } else if i == 115 {
        ("ga-IE"@, "^(\\+?353|0)8[356789]\\d{7}$"@)
    } else if i == 116 {
        ("he-IL"@, "^(\\+972|0)([23489]|5[012345689]|77)[1-9]\\d{6}$"@)
    } else if i == 117 {
        ("hu-HU"@, "^(\\+?36|06)(20|30|31|50|70)\\d{7}$"@)
    } else if i == 118 {
        ("id-ID"@, "^(\\+?62|0)8(1[123456789]|2[1238]|3[1238]|5[12356789]|7[78]|9[56789]|8[123456789])([\\s?|\\d]{5,11})$"@)
    } else if i == 119 {
        ("ir-IR"@, "^(\\+98|0)?9\\d{9}$"@)
    } else if i == 120 {
        ("it-CH"@, "^(\\+41|0)([1-9])\\d{1,9}$"@)
    } else if i == 121 {
        ("it-IT"@, "^(\\+?39)?\\s?3\\d{2} ?\\d{6,7}$"@)
    } else if i == 122 {
        ("it-SM"@, "^((\\+378)|(0549)|(\\+390549)|(\\+3780549))?6\\d{5,9}$"@)
    } else if i == 123 {
        ("ja-JP"@, "^(\\+81[ \\-]?(\\(0\\))?|0)[6789]0[ \\-]?\\d{4}[ \\-]?\\d{4}$"@)
    } else if i == 124 {
        ("ka-GE"@, "^(\\+?995)?(79\\d{7}|5\\d{8})$"@)
    } else if i == 125 {
        ("kk-KZ"@, "^(\\+?7|8)?7\\d{9}$"@)
    } else if i == 126 {
        ("kl-GL"@, "^(\\+?299)?\\s?\\d{2}\\s?\\d{2}\\s?\\d{2}$"@)
    } else if i == 127 {
        ("ko-KR"@, "^((\\+?82)[ \\-]?)?0?1([0|1|6|7|8|9]{1})[ \\-]?\\d{3,4}[ \\-]?\\d{4}$"@)
    } else if i == 128 {
        ("ky-KG"@, "^(\\+996\\s?)?(22[0-9]|50[0-9]|55[0-9]|70[0-9]|75[0-9]|77[0-9]|880|990|995|996|997|998)\\s?\\d{3}\\s?\\d{3}$"@)
    } else if i == 129 {
        ("lt-LT"@, "^(\\+370|8)\\d{8}$"@)
    } else if i == 130 {
        ("lv-LV"@, "^(\\+?371)2\\d{7}$"@)
    } else if i == 131 {
        ("mg-MG"@, "^((\\+?261|0)(2|3)\\d)?\\d{7}$"@)
    } else if i == 132 {
        ("mk-MK"@, "^(\\+?389|0)?((?:2[2-9]\\d{6}|(?:3[1-4]|4[2-8])\\d{6}|500\\d{5}|5[2-9]\\d{6}|7[0-9][2-9]\\d{5}|8[1-9]\\d{6}|800\\d{5}|8009\\d{4}))$"@)
    } else if i == 133 {
        ("mn-MN"@, "^(\\+|00|011)?976(77|81|88|91|94|95|96|99)\\d{6}$"@)
    } else if i == 134 {
        ("ms-MY"@, "^(\\+?60|0)1(([0145](-|\\s)?\\d{7,8})|([236-9](-|\\s)?\\d{7}))$"@)
    } else if i == 135 {
        ("my-MM"@, "^(\\+?959|09|9)(2[5-7]|3[1-2]|4[0-5]|6[6-9]|7[5-9]|9[6-9])[0-9]{7}$"@)
    } else if i == 136 {
        ("mz-MZ"@, "^(\\+?258)?8[234567]\\d{7}$"@)
    } else if i == 137 {
        ("nb-NO"@, "^(\\+?47)?[49]\\d{7}$"@)
    } else if i == 138 {
        ("ne-NP"@, "^(\\+?977)?9[78]\\d{8}$"@)
    } else if i == 139 {
        ("nl-AW"@, "^(\\+)?297(56|59|64|73|74|99)\\d{5}$"@)
    } else {
        (""@, ""@)
    }
}

pub open spec fn locale_chunk_5(i: int) -> (Seq<char>, Seq<char>) {
    if i == 140 {
        ("nl-BE"@, "^(\\+?32|0)4\\d{8}$"@)
    } else if i == 141 {
        ("nl-NL"@, "^(((\\+|00)?31\\(0\\))|((\\+|00)?31)|0)6{1}\\d{8}$"@)
    } else if i == 142 {
        ("nn-NO"@, "^(\\+?47)?[49]\\d{7}$"@)
    } else if i == 143 {
        ("pl-PL"@, "^(\\+?48)? ?([5-8]\\d|45) ?\\d{3} ?\\d{2} ?\\d{2}$"@)
    } else if i == 144 {
        ("pt-AO"@, "^(\\+?244)?9\\d{8}$"@)
    } else if i == 145 {
        ("pt-BR"@, "^((\\+?55\\ ?[1-9]{2}\\ ?)|(\\+?55\\ ?\\([1-9]{2}\\)\\ ?)|(0[1-9]{2}\\ ?)|(\\([1-9]{2}\\)\\ ?)|([1-9]{2}\\ ?))((\\d{4}\\-?\\d{4})|(9[1-9]{1}\\d{3}\\-?\\d{4}))$"@)
    } else if i == 146 {
        ("pt-PT"@, "^(\\+?351)?9[1236]\\d{7}$"@)
    } else if i == 147 {
        ("ro-MD"@, "^(\\+?373|0)((6(0|1|2|6|7|8|9))|(7(6|7|8|9)))\\d{6}$"@)
    } else if i == 148 {
        ("ro-RO"@, "^(\\+?40|0)\\s?7\\d{2}(\\/|\\s|\\.|-)?\\d{3}(\\s|\\.|-)?\\d{3}$"@)
    } else if i == 149 {
        ("ru-RU"@, "^(\\+?7|8)?9\\d{9}$"@)
    } else if i == 150 {
        ("si-LK"@, "^(?:0|94|\\+94)?(7(0|1|2|4|5|6|7|8)( |-)?)\\d{7}$"@)
    } else if i == 151 {
        ("sk-SK"@, "^(\\+?421)? ?[1-9][0-9]{2} ?[0-9]{3} ?[0-9]{3}$"@)
    } else if i == 152 {
        ("sl-SI"@, "^(\\+386\\s?|0)(\\d{1}\\s?\\d{3}\\s?\\d{2}\\s?\\d{2}|\\d{2}\\s?\\d{3}\\s?\\d{3})$"@)
    } else if i == 153 {
        ("so-SO"@, "^(\\+?252|0)((6[0-9])\\d{7}|(7[1-9])\\d{7})$"@)
    } else if i == 154 {
        ("sq-AL"@, "^(\\+355|0)6[2-9]\\d{7}$"@)
    } else if i == 155 {
        ("sr-RS"@, "^(\\+3816|06)[- \\d]{5,9}$"@)
    } else if i == 156 {
        ("sv-SE"@, "^(\\+?46|0)[\\s\\-]?7[\\s\\-]?[02369]([\\s\\-]?\\d){7}$"@)
    } else if i == 157 {
        ("tg-TJ"@, "^(\\+?992)?[5][5]\\d{7}$"@)
    } else if i == 158 {
        ("th-TH"@, "^(\\+66|66|0)\\d{9}$"@)
    } else if i == 159 {
        ("tk-TM"@, "^(\\+993|993|8)\\d{8}$"@)
    } else if i == 160 {
        ("tr-TR"@, "^(\\+?90|0)?5\\d{9}$"@)
    } else if i == 161 {
        ("uk-UA"@, "^(\\+?38)?0(50|6[36-8]|7[357]|9[1-9])\\d{7}$"@)
    } else if i == 162 {
        ("uz-UZ"@, "^(\\+?998)?(6[125-79]|7[1-69]|88|9\\d)\\d{7}$"@)
    } else if i == 163 {
        ("vi-VN"@, "^((\\+?84)|0)((3([2-9]))|(5([25689]))|(7([0|6-9]))|(8([1-9]))|(9([0-9])))([0-9]{7})$"@)
    } else if i == 164 {
        ("zh-CN"@, "^((\\+|00)86)?(1[3-9]|9[28])\\d{9}$"@)
    } else if i == 165 {
        ("zh-HK"@, "^(\\+?852[-\\s]?)?[456789]\\d{3}[-\\s]?\\d{4}$"@)
    } else if i == 166 {
        ("zh-MO"@, "^(\\+?853[-\\s]?)?[6]\\d{3}[-\\s]?\\d{4}$"@)
    } else if i == 167 {
        ("zh-TW"@, "^(\\+?886\\-?|0)?9\\d{8}$"@)
    } else {
        (""@, ""@)
    }
}

/// The table of supported locales and their patterns, ordered by locale.
pub open spec fn locale_entry(i: int) -> (Seq<char>, Seq<char>) {
    if i < 28 {
        locale_chunk_0(i)
    } else if i < 56 {
        locale_chunk_1(i)
    } else if i < 84 {
        locale_chunk_2(i)
    } else if i < 112 {
        locale_chunk_3(i)
    } else if i < 140 {
        locale_chunk_4(i)
    } else {
        locale_chunk_5(i)
    }
}


fn locale_chunk_0_at(i: usize) -> (r: (&'static str, &'static str))
    requires
        0 <= i < 28,
    ensures
        (r.0@, r.1@) == locale_chunk_0(i as int),
{
    if i == 0 {
        ("am-AM", "^(\\+?374|0)(33|4[134]|55|77|88|9[13-689])\\d{6}$")
    } else if i == 1 {
        ("ar-AE", "^((\\+?971)|0)?5[024568]\\d{7}$")
    } else if i == 2 {
        ("ar-BH", "^(\\+?973)?(3|6)\\d{7}$")
    } else if i == 3 {
        ("ar-DZ", "^(\\+?213|0)(5|6|7)\\d{8}$")
    } else if i == 4 {
        ("ar-EG", "^((\\+?20)|0)?1[0125]\\d{8}$")
    } else if i == 5 {
        ("ar-EH", "^(\\+?212|0)[\\s\\-]?(5288|5289)[\\s\\-]?\\d{5}$")
    } else if i == 6 {
        ("ar-IQ", "^(\\+?964|0)?7[0-9]\\d{8}$")
    } else if i == 7 {
        ("ar-JO", "^(\\+?962|0)?7[789]\\d{7}$")
    } else if i == 8 {
        ("ar-KW", "^(\\+?965)([569]\\d{7}|41\\d{6})$")
    } else if i == 9 {
        ("ar-LB", "^(\\+?961)?((3|81)\\d{6}|7\\d{7})$")
    } else if i == 10 {
        ("ar-LY", "^((\\+?218)|0)?(9[1-6]\\d{7}|[1-8]\\d{7,9})$")
    } else if i == 11 {
        ("ar-MA", "^(?:(?:\\+|00)212|0)[5-7]\\d{8}$")
    } else if i == 12 {
        ("ar-OM", "^((\\+|00)968)?([79][1-9])\\d{6}$")
    } else if i == 13 {
        ("ar-PS", "^(\\+?970|0)5[6|9](\\d{7})$")
    } else if i == 14 {
        ("ar-QA", "^(\\+?974|0)?([3567]\\d{7})$")
    } else if i == 15 {
        ("ar-SA", "^(!?(\\+?966)|0)?5\\d{8}$")
    } else if i == 16 {
        ("ar-SD", "^((\\+?249)|0)?(9[012369]|1[012])\\d{7}$")
    } else if i == 17 {
        ("ar-SY", "^(!?(\\+?963)|0)?9\\d{8}$")
    } else if i == 18 {
        ("ar-TN", "^(\\+?216)?[2459]\\d{7}$")
    } else if i == 19 {
        ("ar-YE", "^(((\\+|00)9677|0?7)[0137]\\d{7}|((\\+|00)967|0)[1-7]\\d{6})$")
    } else if i == 20 {
        ("az-AZ", "^(\\+994|0)(10|5[015]|7[07]|99)\\d{7}$")
    } else if i == 21 {
        ("be-BY", "^(\\+?375)?(24|25|29|33|44)\\d{7}$")
    } else if i == 22 {
        ("bg-BG", "^(\\+?359|0)?8[789]\\d{7}$")
    } else if i == 23 {
        ("bn-BD", "^(\\+?880|0)1[13456789][0-9]{8}$")
    } else if i == 24 {
        ("bs-BA", "^((((\\+|00)3876)|06))((([0-3]|[5-6])\\d{6})|(4\\d{7}))$")
    } else if i == 25 {
        ("ca-AD", "^(\\+376)?[346]\\d{5}$")
    } else if i == 26 {
        ("cs-CZ", "^(\\+?420)? ?[1-9][0-9]{2} ?[0-9]{3} ?[0-9]{3}$")
    } else {
        ("da-DK", "^(\\+?45)?\\s?\\d{2}\\s?\\d{2}\\s?\\d{2}\\s?\\d{2}$")
    }
}

fn locale_chunk_1_at(i: usize) -> (r: (&'static str, &'static str))
    requires
        28 <= i < 56,
    ensures
        (r.0@, r.1@) == locale_chunk_1(i as int),
{
    if i == 28 {
        ("de-AT", "^(\\+43|0)\\d{1,4}\\d{3,12}$")
    } else if i == 29 {
        ("de-CH", "^(\\+41|0)([1-9])\\d{1,9}$")
    } else if i == 30 {
        ("de-DE", "^((\\+49|0)1)(5[0-25-9]\\d|6([23]|0\\d?)|7([0-57-9]|6\\d))\\d{7,9}$")
    } else if i == 31 {
        ("de-LU", "^(\\+352)?((6\\d1)\\d{6})$")
    } else if i == 32 {
        ("dv-MV", "^(\\+?960)?(7[2-9]|9[1-9])\\d{5}$")
    } else if i == 33 {
        ("dz-BT", "^(\\+?975|0)?(17|16|77|02)\\d{6}$")
    } else if i == 34 {
        ("el-CY", "^(\\+?357?)?(9(9|7|6|5|4)\\d{6})$")
    } else if i == 35 {
        ("el-GR", "^(\\+?30|0)?6(8[5-9]|9[013-57-9])\\d{7}$")
    } else if i == 36 {
        ("en-AG", "^(?:\\+1|1)268(?:464|7(?:1[3-9]|[28]\\d|3[0246]|64|7[0-689]))\\d{4}$")
    } else if i == 37 {
        ("en-AI", "^(\\+?1|0)264(?:2(35|92)|4(?:6[1-2]|76|97)|5(?:3[6-9]|8[1-4])|7(?:2(4|9)|72))\\d{4}$")
    } else if i == 38 {
        ("en-AU", "^(\\+?61|0)4\\d{8}$")
    } else if i == 39 {
        ("en-BM", "^(\\+?1)?441(((3|7)\\d{6}$)|(5[0-3][0-9]\\d{4}$)|(59\\d{5}$))")
    } else if i == 40 {
        ("en-BS", "^(\\+?1[-\\s]?|0)?\\(?242\\)?[-\\s]?\\d{3}[-\\s]?\\d{4}$")
    } else if i == 41 {
        ("en-BW", "^(\\+?267)?(7[1-8]{1})\\d{6}$")
    } else if i == 42 {
        ("en-CA", "^((\\+1|1)?( |-)?)?(\\([2-9][0-9]{2}\\)|[2-9][0-9]{2})( |-)?([2-9][0-9]{2}( |-)?[0-9]{4})$")
    } else if i == 43 {
        ("en-GB", "^(\\+?44|0)7[1-9]\\d{8}$")
    } else if i == 44 {
        ("en-GG", "^(\\+?44|0)1481\\d{6}$")
    } else if i == 45 {
        ("en-GH", "^(\\+233|0)(20|50|24|54|27|57|26|56|23|53|28|55|59)\\d{7}$")
    } else if i == 46 {
        ("en-GY", "^(\\+592|0)6\\d{6}$")
    } else if i == 47 {
        ("en-HK", "^(\\+?852[-\\s]?)?[456789]\\d{3}[-\\s]?\\d{4}$")
    } else if i == 48 {
        ("en-IE", "^(\\+?353|0)8[356789]\\d{7}$")
    } else if i == 49 {
        ("en-IN", "^(\\+?91|0)?[6789]\\d{9}$")
    } else if i == 50 {
        ("en-JM", "^(\\+?876)?\\d{7}$")
    } else if i == 51 {
        ("en-KE", "^(\\+?254|0)(7|1)\\d{8}$")
    } else if i == 52 {
        ("en-KI", "^((\\+686|686)?)?( )?((6|7)(2|3|8)[0-9]{6})$")
    } else if i == 53 {
        ("en-KN", "^(?:\\+1|1)869(?:46\\d|48[89]|55[6-8]|66\\d|76[02-7])\\d{4}$")
    } else if i == 54 {
        ("en-LS", "^(\\+?266)(22|28|57|58|59|27|52)\\d{6}$")
    } else {
        ("en-MO", "^(\\+?853[-\\s]?)?[6]\\d{3}[-\\s]?\\d{4}$")
    }
}

fn locale_chunk_2_at(i: usize) -> (r: (&'static str, &'static str))
    requires
        56 <= i < 84,
    ensures
        (r.0@, r.1@) == locale_chunk_2(i as int),
{
    if i == 56 {
        ("en-MT", "^(\\+?356|0)?(99|79|77|21|27|22|25)[0-9]{6}$")
    } else if i == 57 {
        ("en-MU", "^(\\+?230|0)?\\d{8}$")
    } else if i == 58 {
        ("en-MW", "^(\\+?265|0)(((77|88|31|99|98|21)\\d{7})|(((111)|1)\\d{6})|(32000\\d{4}))$")
    } else if i == 59 {
        ("en-NA", "^(\\+?264|0)(6|8)\\d{7}$")
    } else if i == 60 {
        ("en-NG", "^(\\+?234|0)?[789]\\d{9}$")
    } else if i == 61 {
        ("en-NZ", "^(\\+?64|0)[28]\\d{7,9}$")
    } else if i == 62 {
        ("en-PG", "^(\\+?675|0)?(7\\d|8[18])\\d{6}$")
    } else if i == 63 {
        ("en-PH", "^(09|\\+639)\\d{9}$")
    } else if i == 64 {
        ("en-PK", "^((00|\\+)?92|0)3[0-6]\\d{8}$")
    } else if i == 65 {
        ("en-RW", "^(\\+?250|0)?[7]\\d{8}$")
    } else if i == 66 {
        ("en-SG", "^(\\+65)?[3689]\\d{7}$")
    } else if i == 67 {
        ("en-SL", "^(\\+?232|0)\\d{8}$")
    } else if i == 68 {
        ("en-SS", "^(\\+?211|0)(9[1257])\\d{7}$")
    } else if i == 69 {
        ("en-TZ", "^(\\+?255|0)?[67]\\d{8}$")
    } else if i == 70 {
        ("en-UG", "^(\\+?256|0)?[7]\\d{8}$")
    } else if i == 71 {
        ("en-US", "^((\\+1|1)?( |-)?)?(\\([2-9][0-9]{2}\\)|[2-9][0-9]{2})( |-)?([2-9][0-9]{2}( |-)?[0-9]{4})$")
    } else if i == 72 {
        ("en-ZA", "^(\\+?27|0)\\d{9}$")
    } else if i == 73 {
        ("en-ZM", "^(\\+?26)?0[79][567]\\d{7}$")
    } else if i == 74 {
        ("en-ZW", "^(\\+263)[0-9]{9}$")
    } else if i == 75 {
        ("es-AR", "^\\+?549(11|[2368]\\d)\\d{8}$")
    } else if i == 76 {
        ("es-BO", "^(\\+?591)?(6|7)\\d{7}$")
    } else if i == 77 {
        ("es-CL", "^(\\+?56|0)[2-9]\\d{1}\\d{7}$")
    } else if i == 78 {
        ("es-CO", "^(\\+?57)?3(0(0|1|2|4|5)|1\\d|2[0-4]|5(0|1))\\d{7}$")
    } else if i == 79 {
        ("es-CR", "^(\\+506)?[2-8]\\d{7}$")
    } else if i == 80 {
        ("es-CU", "^(\\+53|0053)?5\\d{7}$")
    } else if i == 81 {
        ("es-DO", "^(\\+?1)?8[024]9\\d{7}$")
    } else if i == 82 {
        ("es-EC", "^(\\+?593|0)([2-7]|9[2-9])\\d{7}$")
    } else {
        ("es-ES", "^(\\+?34)?[6|7]\\d{8}$")
    }
}

fn locale_chunk_3_at(i: usize) -> (r: (&'static str, &'static str))
    requires
        84 <= i < 112,
    ensures
        (r.0@, r.1@) == locale_chunk_3(i as int),
{
    if i == 84 {
        ("es-GT", "^(\\+?502)?[2|6|7]\\d{7}$")
    } else if i == 85 {
        ("es-HN", "^(\\+?504)?[9|8|3|2]\\d{7}$")
    } else if i == 86 {
        ("es-MX", "^(\\+?52)?(1|01)?\\d{10,11}$")
    } else if i == 87 {
        ("es-NI", "^(\\+?505)\\d{7,8}$")
    } else if i == 88 {
        ("es-PA", "^(\\+?507)\\d{7,8}$")
    } else if i == 89 {
        ("es-PE", "^(\\+?51)?9\\d{8}$")
    } else if i == 90 {
        ("es-PY", "^(\\+?595|0)9[9876]\\d{7}$")
    } else if i == 91 {
        ("es-SV", "^(\\+?503)?[67]\\d{7}$")
    } else if i == 92 {
        ("es-UY", "^(\\+598|0)9[1-9][\\d]{6}$")
    } else if i == 93 {
        ("es-VE", "^(\\+?58)?(2|4)\\d{9}$")
    } else if i == 94 {
        ("et-EE", "^(\\+?372)?\\s?(5|8[1-4])\\s?([0-9]\\s?){6,7}$")
    } else if i == 95 {
        ("fa-AF", "^(\\+93|0)?(2{1}[0-8]{1}|[3-5]{1}[0-4]{1})(\\d{7})$")
    } else if i == 96 {
        ("fa-IR", "^(\\+?98[\\-\\s]?|0)9[0-39]\\d[\\-\\s]?\\d{3}[\\-\\s]?\\d{4}$")
    } else if i == 97 {
        ("fi-FI", "^(\\+?358|0)\\s?(4[0-6]|50)\\s?(\\d\\s?){4,8}$")
    } else if i == 98 {
        ("fj-FJ", "^(\\+?679)?\\s?\\d{3}\\s?\\d{4}$")
    } else if i == 99 {
        ("fo-FO", "^(\\+?298)?\\s?\\d{2}\\s?\\d{2}\\s?\\d{2}$")
    } else if i == 100 {
        ("fr-BE", "^(\\+?32|0)4\\d{8}$")
    } else if i == 101 {
        ("fr-BF", "^(\\+226|0)[67]\\d{7}$")
    } else if i == 102 {
        ("fr-BJ", "^(\\+229)\\d{8}$")
    } else if i == 103 {
        ("fr-CA", "^((\\+1|1)?( |-)?)?(\\([2-9][0-9]{2}\\)|[2-9][0-9]{2})( |-)?([2-9][0-9]{2}( |-)?[0-9]{4})$")
    } else if i == 104 {
        ("fr-CD", "^(\\+?243|0)?(8|9)\\d{8}$")
    } else if i == 105 {
        ("fr-CF", "^(\\+?236| ?)(70|75|77|72|21|22)\\d{6}$")
    } else if i == 106 {
        ("fr-CH", "^(\\+41|0)([1-9])\\d{1,9}$")
    } else if i == 107 {
        ("fr-CM", "^(\\+?237)6[0-9]{8}$")
    } else if i == 108 {
        ("fr-FR", "^(\\+?33|0)[67]\\d{8}$")
    } else if i == 109 {
        ("fr-GF", "^(\\+?594|0|00594)[67]\\d{8}$")
    } else if i == 110 {
        ("fr-GP", "^(\\+?590|0|00590)[67]\\d{8}$")
    } else {
        ("fr-MQ", "^(\\+?596|0|00596)[67]\\d{8}$")
    }
}

fn locale_chunk_4_at(i: usize) -> (r: (&'static str, &'static str))
    requires
        112 <= i < 140,
    ensures
        (r.0@, r.1@) == locale_chunk_4(i as int),
{
    if i == 112 {
        ("fr-PF", "^(\\+?689)?8[789]\\d{6}$")
    } else if i == 113 {
        ("fr-RE", "^(\\+?262|0|00262)[67]\\d{8}$")
    } else if i == 114 {
        ("fr-WF", "^(\\+681)?\\d{6}$")
    } else if i == 115 {
        ("ga-IE", "^(\\+?353|0)8[356789]\\d{7}$")
    } else if i == 116 {
        ("he-IL", "^(\\+972|0)([23489]|5[012345689]|77)[1-9]\\d{6}$")
    } else if i == 117 {
        ("hu-HU", "^(\\+?36|06)(20|30|31|50|70)\\d{7}$")
    } else if i == 118 {
        ("id-ID", "^(\\+?62|0)8(1[123456789]|2[1238]|3[1238]|5[12356789]|7[78]|9[56789]|8[123456789])([\\s?|\\d]{5,11})$")
    } else if i == 119 {
        ("ir-IR", "^(\\+98|0)?9\\d{9}$")
    } else if i == 120 {
        ("it-CH", "^(\\+41|0)([1-9])\\d{1,9}$")
    } else if i == 121 {
        ("it-IT", "^(\\+?39)?\\s?3\\d{2} ?\\d{6,7}$")
    } else if i == 122 {
        ("it-SM", "^((\\+378)|(0549)|(\\+390549)|(\\+3780549))?6\\d{5,9}$")
    } else if i == 123 {
        ("ja-JP", "^(\\+81[ \\-]?(\\(0\\))?|0)[6789]0[ \\-]?\\d{4}[ \\-]?\\d{4}$")
    } else if i == 124 {
        ("ka-GE", "^(\\+?995)?(79\\d{7}|5\\d{8})$")
    } else if i == 125 {
        ("kk-KZ", "^(\\+?7|8)?7\\d{9}$")
    } else if i == 126 {
        ("kl-GL", "^(\\+?299)?\\s?\\d{2}\\s?\\d{2}\\s?\\d{2}$")
    } else if i == 127 {
        ("ko-KR", "^((\\+?82)[ \\-]?)?0?1([0|1|6|7|8|9]{1})[ \\-]?\\d{3,4}[ \\-]?\\d{4}$")
    } else if i == 128 {
        ("ky-KG", "^(\\+996\\s?)?(22[0-9]|50[0-9]|55[0-9]|70[0-9]|75[0-9]|77[0-9]|880|990|995|996|997|998)\\s?\\d{3}\\s?\\d{3}$")
    } else if i == 129 {
        ("lt-LT", "^(\\+370|8)\\d{8}$")
    } else if i == 130 {
        ("lv-LV", "^(\\+?371)2\\d{7}$")
    } else if i == 131 {
        ("mg-MG", "^((\\+?261|0)(2|3)\\d)?\\d{7}$")
    } else if i == 132 {
        ("mk-MK", "^(\\+?389|0)?((?:2[2-9]\\d{6}|(?:3[1-4]|4[2-8])\\d{6}|500\\d{5}|5[2-9]\\d{6}|7[0-9][2-9]\\d{5}|8[1-9]\\d{6}|800\\d{5}|8009\\d{4}))$")
    } else if i == 133 {
        ("mn-MN", "^(\\+|00|011)?976(77|81|88|91|94|95|96|99)\\d{6}$")
    } else if i == 134 {
        ("ms-MY", "^(\\+?60|0)1(([0145](-|\\s)?\\d{7,8})|([236-9](-|\\s)?\\d{7}))$")
    } else if i == 135 {
        ("my-MM", "^(\\+?959|09|9)(2[5-7]|3[1-2]|4[0-5]|6[6-9]|7[5-9]|9[6-9])[0-9]{7}$")
    } else if i == 136 {
        ("mz-MZ", "^(\\+?258)?8[234567]\\d{7}$")
    } else if i == 137 {
        ("nb-NO", "^(\\+?47)?[49]\\d{7}$")
    } else if i == 138 {
        ("ne-NP", "^(\\+?977)?9[78]\\d{8}$")
    } else {
        ("nl-AW", "^(\\+)?297(56|59|64|73|74|99)\\d{5}$")
    }
}

fn locale_chunk_5_at(i: usize) -> (r: (&'static str, &'static str))
    requires
        140 <= i < 168,
    ensures
        (r.0@, r.1@) == locale_chunk_5(i as int),
{
    if i == 140 {
        ("nl-BE", "^(\\+?32|0)4\\d{8}$")
    } else if i == 141 {
        ("nl-NL", "^(((\\+|00)?31\\(0\\))|((\\+|00)?31)|0)6{1}\\d{8}$")
    } else if i == 142 {
        ("nn-NO", "^(\\+?47)?[49]\\d{7}$")
    } else if i == 143 {
        ("pl-PL", "^(\\+?48)? ?([5-8]\\d|45) ?\\d{3} ?\\d{2} ?\\d{2}$")
    } else if i == 144 {
        ("pt-AO", "^(\\+?244)?9\\d{8}$")
    } else if i == 145 {
        ("pt-BR", "^((\\+?55\\ ?[1-9]{2}\\ ?)|(\\+?55\\ ?\\([1-9]{2}\\)\\ ?)|(0[1-9]{2}\\ ?)|(\\([1-9]{2}\\)\\ ?)|([1-9]{2}\\ ?))((\\d{4}\\-?\\d{4})|(9[1-9]{1}\\d{3}\\-?\\d{4}))$")
    } else if i == 146 {
        ("pt-PT", "^(\\+?351)?9[1236]\\d{7}$")
    } else if i == 147 {
        ("ro-MD", "^(\\+?373|0)((6(0|1|2|6|7|8|9))|(7(6|7|8|9)))\\d{6}$")
    } else if i == 148 {
        ("ro-RO", "^(\\+?40|0)\\s?7\\d{2}(\\/|\\s|\\.|-)?\\d{3}(\\s|\\.|-)?\\d{3}$")
    } else if i == 149 {
        ("ru-RU", "^(\\+?7|8)?9\\d{9}$")
    } else if i == 150 {
        ("si-LK", "^(?:0|94|\\+94)?(7(0|1|2|4|5|6|7|8)( |-)?)\\d{7}$")
    } else if i == 151 {
        ("sk-SK", "^(\\+?421)? ?[1-9][0-9]{2} ?[0-9]{3} ?[0-9]{3}$")
    } else if i == 152 {
        ("sl-SI", "^(\\+386\\s?|0)(\\d{1}\\s?\\d{3}\\s?\\d{2}\\s?\\d{2}|\\d{2}\\s?\\d{3}\\s?\\d{3})$")
    } else if i == 153 {
        ("so-SO", "^(\\+?252|0)((6[0-9])\\d{7}|(7[1-9])\\d{7})$")
    } else if i == 154 {
        ("sq-AL", "^(\\+355|0)6[2-9]\\d{7}$")
    } else if i == 155 {
        ("sr-RS", "^(\\+3816|06)[- \\d]{5,9}$")
    } else if i == 156 {
        ("sv-SE", "^(\\+?46|0)[\\s\\-]?7[\\s\\-]?[02369]([\\s\\-]?\\d){7}$")
    } else if i == 157 {
        ("tg-TJ", "^(\\+?992)?[5][5]\\d{7}$")
    } else if i == 158 {
        ("th-TH", "^(\\+66|66|0)\\d{9}$")
    } else if i == 159 {
        ("tk-TM", "^(\\+993|993|8)\\d{8}$")
    } else if i == 160 {
        ("tr-TR", "^(\\+?90|0)?5\\d{9}$")
    } else if i == 161 {
        ("uk-UA", "^(\\+?38)?0(50|6[36-8]|7[357]|9[1-9])\\d{7}$")
    } else if i == 162 {
        ("uz-UZ", "^(\\+?998)?(6[125-79]|7[1-69]|88|9\\d)\\d{7}$")
    } else if i == 163 {
        ("vi-VN", "^((\\+?84)|0)((3([2-9]))|(5([25689]))|(7([0|6-9]))|(8([1-9]))|(9([0-9])))([0-9]{7})$")
    } else if i == 164 {
        ("zh-CN", "^((\\+|00)86)?(1[3-9]|9[28])\\d{9}$")
    } else if i == 165 {
        ("zh-HK", "^(\\+?852[-\\s]?)?[456789]\\d{3}[-\\s]?\\d{4}$")
    } else if i == 166 {
        ("zh-MO", "^(\\+?853[-\\s]?)?[6]\\d{3}[-\\s]?\\d{4}$")
    } else {
        ("zh-TW", "^(\\+?886\\-?|0)?9\\d{8}$")
    }
}

/// The locale and pattern at one position of the table.
fn locale_entry_at(i: usize) -> (r: (&'static str, &'static str))
    requires
        i < LOCALE_COUNT,
    ensures
        (r.0@, r.1@) == locale_entry(i as int),
{
    if i < 28 {
        locale_chunk_0_at(i)
    } else if i < 56 {
        locale_chunk_1_at(i)
    } else if i < 84 {
        locale_chunk_2_at(i)
    } else if i < 112 {
        locale_chunk_3_at(i)
    } else if i < 140 {
        locale_chunk_4_at(i)
    } else {
        locale_chunk_5_at(i)
    }
}
// ---------------------------------------------------------------------------
// Lookup
// ---------------------------------------------------------------------------

/// First-match lookup in the table, from position `i` on.
pub open spec fn lookup_from(i: int, loc: Seq<char>) -> Option<Seq<char>>
    decreases LOCALE_COUNT - i,
{
    if i < 0 || i >= LOCALE_COUNT {
        None
    } else if locale_entry(i).0 == loc {
        Some(locale_entry(i).1)
    } else {
        lookup_from(i + 1, loc)
    }
}

/// The pattern of a locale, when the table has it.
pub open spec fn spec_locale_pattern(loc: Seq<char>) -> Option<Seq<char>> {
    lookup_from(0, loc)
}

/// Looks a locale up in the table.
fn locale_pattern(loc: &str) -> (r: Option<&'static str>)
    ensures
        r is Some <==> spec_locale_pattern(loc@) is Some,
        r matches Some(p) ==> spec_locale_pattern(loc@) == Some(p@),
{
    let mut i: usize = 0;
    while i < LOCALE_COUNT
        invariant
            i <= LOCALE_COUNT,
            lookup_from(0, loc@) == lookup_from(i as int, loc@),
        decreases LOCALE_COUNT - i,
    {
        let entry = locale_entry_at(i);
        if crate::text::eq_str(loc, entry.0) {
            return Some(entry.1);
        }
        i = i + 1;
    }
    None
}

/// A pattern accepts a phone number: it compiles and matches.
pub open spec fn spec_phone_match(p: Seq<char>, t: Seq<char>) -> bool {
    pattern_compiles(p) && regex_matches(p, t)
}

/// Matches a phone number against one pattern; a pattern the engine refuses
/// accepts nothing.
fn phone_match(pattern: &str, phone: &str) -> (r: bool)
    ensures
        r == spec_phone_match(pattern@, phone@),
{
    let pv = crate::text::chars_vec(pattern);
    match crate::matching::regex_full_match(&pv, phone) {
        Some(m) => m,
        None => false,
    }
}

// ---------------------------------------------------------------------------
// Options and locale selection
// ---------------------------------------------------------------------------

/// Options for mobile phone validation.
#[derive(Debug, Clone)]
pub struct MobileOptions {
    /// If true, the phone number must start with '+'.
    pub strict_mode: bool,
}

impl Default for MobileOptions {
    fn default() -> (r: Self)
        ensures
            !r.strict_mode,
    {
        MobileOptions { strict_mode: false }
    }
}

/// Locale type for validation.
#[derive(Debug, Clone)]
pub enum Locale {
    /// A specific locale (e.g., "en-US", "fr-FR").
    Specific(String),
    /// Multiple locales - validates if the number matches any of them.
    Multiple(Vec<String>),
    /// Any locale - validates against all available patterns.
    Any,
}

impl Locale {
    /// The locale a code names: any locale for the empty code or `"any"`,
    /// else that specific code.
    pub fn of_code(s: &str) -> (r: Locale)
        ensures
            (s@.len() == 0 || s@ == "any"@) ==> r is Any,
            !(s@.len() == 0 || s@ == "any"@) ==> (r matches Locale::Specific(t) && t@ == s@),
    {
        if s.is_empty() || crate::text::eq_str(s, "any") {
            Locale::Any
        } else {
            Locale::Specific(s.to_owned())
        }
    }

    /// The locale a list of codes names: any locale for the empty list,
    /// else exactly the listed ones, in order.
    pub fn of_codes(v: Vec<String>) -> (r: Locale)
        ensures
            v@.len() == 0 ==> r is Any,
            v@.len() > 0 ==> (r matches Locale::Multiple(l) && l == v),
    {
        if v.len() == 0 {
            Locale::Any
        } else {
            Locale::Multiple(v)
        }
    }
}

impl vstd::std_specs::convert::FromSpecImpl<&str> for Locale {
    open spec fn obeys_from_spec() -> bool {
        false
    }

    open spec fn from_spec(s: &str) -> Locale {
        Locale::Any
    }
}

impl From<&str> for Locale {
    fn from(s: &str) -> Self {
        Locale::of_code(s)
    }
}

impl vstd::std_specs::convert::FromSpecImpl<String> for Locale {
    open spec fn obeys_from_spec() -> bool {
        false
    }

    open spec fn from_spec(s: String) -> Locale {
        Locale::Any
    }
}

impl From<String> for Locale {
    fn from(s: String) -> Self {
        Locale::of_code(s.as_str())
    }
}

impl vstd::std_specs::convert::FromSpecImpl<Vec<String>> for Locale {
    open spec fn obeys_from_spec() -> bool {
        false
    }

    open spec fn from_spec(v: Vec<String>) -> Locale {
        Locale::Any
    }
}

impl From<Vec<String>> for Locale {
    fn from(v: Vec<String>) -> Self {
        Locale::of_codes(v)
    }
}

impl vstd::std_specs::convert::FromSpecImpl<Vec<&str>> for Locale {
    open spec fn obeys_from_spec() -> bool {
        false
    }

    open spec fn from_spec(v: Vec<&str>) -> Locale {
        Locale::Any
    }
}

impl From<Vec<&str>> for Locale {
    fn from(v: Vec<&str>) -> Self {
        let mut owned: Vec<String> = Vec::new();
        let n = v.len();
        let mut i: usize = 0;
        while i < n
            invariant
                i <= n,
                n == v@.len(),
                owned@.len() == i,
                forall|t: int| 0 <= t < i ==> (#[trigger] owned@[t])@ == v@[t]@,
            decreases n - i,
        {
            owned.push(v[i].to_owned());
            i = i + 1;
        }
        Locale::of_codes(owned)
    }
}

// ---------------------------------------------------------------------------
// Validation
// ---------------------------------------------------------------------------

/// The number clears the preliminary checks: it is non-empty, and starts
/// with a plus when strict mode asks for one.
pub open spec fn spec_active(t: Seq<char>, options: Option<MobileOptions>) -> bool {
    &&& t.len() > 0
    &&& (options matches Some(o) && o.strict_mode) ==> t[0] == '+'
}

/// Some pattern of the table accepts the number.
pub open spec fn spec_any_match(t: Seq<char>) -> bool {
    exists|i: int| 0 <= i < LOCALE_COUNT && spec_phone_match(#[trigger] locale_entry(i).1, t)
}

/// Some listed locale is in the table and its pattern accepts the number.
pub open spec fn spec_multi_match(ls: Seq<Seq<char>>, t: Seq<char>) -> bool {
    exists|j: int|
        0 <= j < ls.len() && (#[trigger] spec_locale_pattern(ls[j])) is Some && spec_phone_match(
            spec_locale_pattern(ls[j])->0,
            t,
        )
}

/// Validates a mobile phone number with locale and options.
pub fn is_mobile_phone(phone: &str, locale: Locale, options: Option<MobileOptions>) -> (r: Result<
    bool,
    String,
>)
    ensures
        locale is Any ==> r == Ok::<bool, String>(spec_active(phone@, options) && spec_any_match(
            phone@,
        )),
        locale matches Locale::Multiple(ls) ==> r == Ok::<bool, String>(spec_active(
            phone@,
            options,
        ) && spec_multi_match(ls.deep_view(), phone@)),
        locale matches Locale::Specific(l) ==> ({
            if spec_active(phone@, options) && spec_locale_pattern(l@) is None {
                r matches Err(m) && m@ == "Invalid locale '"@ + l@ + "'"@
            } else {
                r == Ok::<bool, String>(spec_active(phone@, options) && spec_locale_pattern(
                    l@,
                ) is Some && spec_phone_match(spec_locale_pattern(l@)->0, phone@))
            }
        }),
{
    let cs = crate::text::chars_vec(phone);
    let active: bool = if cs.len() == 0 {
        false
    } else {
        let strict = match &options {
            Some(o) => o.strict_mode,
            None => false,
        };
        !strict || cs[0] == '+'
    };
    match locale {
        Locale::Specific(loc) => {
            if !active {
                return Ok(false);
            }
            match locale_pattern(loc.as_str()) {
                Some(p) => Ok(phone_match(p, phone)),
                None => {
                    let mut msg = String::from_str("Invalid locale '");
                    msg.append(loc.as_str());
                    msg.append("'");
                    Err(msg)
                },
            }
        },
        Locale::Multiple(locs) => {
            if !active {
                return Ok(false);
            }
            let n = locs.len();
            let mut j: usize = 0;
            while j < n
                invariant
                    n == locs@.len(),
                    j <= n,
                    spec_active(phone@, options),
                    locale == Locale::Multiple(locs),
                    forall|t: int|
                        0 <= t < j ==> !((#[trigger] spec_locale_pattern(
                            locs.deep_view()[t],
                        )) is Some && spec_phone_match(
                            spec_locale_pattern(locs.deep_view()[t])->0,
                            phone@,
                        )),
                decreases n - j,
            {
                proof {
                    assert(locs.deep_view()[j as int] == locs@[j as int]@);
                }
                match locale_pattern(locs[j].as_str()) {
                    Some(p) => {
                        if phone_match(p, phone) {
                            return Ok(true);
                        }
                    },
                    None => {
                    },
                }
                j = j + 1;
            }
            Ok(false)
        },
        Locale::Any => {
            if !active {
                return Ok(false);
            }
            // One set holds every pattern, so the engine is handed the whole
            // table at once; should the set be refused, the patterns are
            // tried one by one instead.
            let mut pats: Vec<Vec<char>> = Vec::new();
            let mut i: usize = 0;
            while i < LOCALE_COUNT
                invariant
                    i <= LOCALE_COUNT,
                    pats@.len() == i,
                    forall|t: int| 0 <= t < i ==> (#[trigger] pats@[t])@ == locale_entry(t).1,
                decreases LOCALE_COUNT - i,
            {
                let entry = locale_entry_at(i);
                pats.push(crate::text::chars_vec(entry.1));
                i = i + 1;
            }
            match crate::matching::regex_set_match(&pats, phone) {
                Some(m) => {
                    proof {
                        if m {
                            let w = choose|w: int|
                                0 <= w < pats@.len() && regex_matches(
                                    #[trigger] pats@[w]@,
                                    phone@,
                                );
                            assert(spec_phone_match(locale_entry(w).1, phone@));
                        } else {
                            assert forall|w: int|
                                0 <= w < LOCALE_COUNT implies !spec_phone_match(
                                #[trigger] locale_entry(w).1,
                                phone@,
                            ) by {
                                assert(pats@[w]@ == locale_entry(w).1);
                            }
                        }
                    }
                    Ok(m)
                },
                None => {
                    let mut j: usize = 0;
                    while j < LOCALE_COUNT
                        invariant
                            j <= LOCALE_COUNT,
                            spec_active(phone@, options),
                            locale is Any,
                            forall|t: int|
                                0 <= t < j ==> !spec_phone_match(
                                    #[trigger] locale_entry(t).1,
                                    phone@,
                                ),
                        decreases LOCALE_COUNT - j,
                    {
                        let entry = locale_entry_at(j);
                        if phone_match(entry.1, phone) {
                            proof {
                                assert(entry.1@ == locale_entry(j as int).1);
                                assert(spec_phone_match(locale_entry(j as int).1, phone@));
                            }
                            return Ok(true);
                        }
                        j = j + 1;
                    }
                    Ok(false)
                },
            }
        },
    }
}

/// Validates a mobile phone number against every supported locale.
pub fn is_valid_phone(phone: &str) -> (r: bool)
    ensures
        r == (spec_active(phone@, None) && spec_any_match(phone@)),
{
    match is_mobile_phone(phone, Locale::Any, None) {
        Ok(b) => b,
        Err(_) => false,
    }
}

/// Returns a list of all supported locales, in the table's order.
pub fn get_supported_locales() -> (r: Vec<&'static str>)
    ensures
        r@.len() == LOCALE_COUNT,
        forall|i: int| 0 <= i < LOCALE_COUNT ==> (#[trigger] r@[i])@ == locale_entry(i).0,
{
    let mut r: Vec<&'static str> = Vec::new();
    let mut i: usize = 0;
    while i < LOCALE_COUNT
        invariant
            i <= LOCALE_COUNT,
            r@.len() == i,
            forall|t: int| 0 <= t < i ==> (#[trigger] r@[t])@ == locale_entry(t).0,
        decreases LOCALE_COUNT - i,
    {
        let entry = locale_entry_at(i);
        r.push(entry.0);
        i = i + 1;
    }
    r
}

} // verus!
