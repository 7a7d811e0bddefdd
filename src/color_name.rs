//! Names of well-known colors.
use vstd::prelude::*;

verus! {

/// The name that the color table gives `color`, if any.
pub open spec fn color_name_spec(color: (u8, u8, u8)) -> Option<&'static str> {
    match color {
        (0, 72, 186) => Some("Absolute zero"),
        (176, 191, 26) => Some("Acid green"),
        (0, 185, 232) => Some("Aero"),
        (178, 132, 190) => Some("African violet"),
        (114, 160, 193) => Some("Air superiority blue"),
        (242, 240, 230) => Some("Alabaster"),
        (240, 248, 255) => Some("Alice blue"),
        (219, 45, 67) => Some("Alizarin"),
        (196, 98, 16) => Some("Alloy orange"),
        (239, 222, 205) => Some("Almond"),
        (229, 43, 80) => Some("Amaranth"),
        (159, 43, 104) => Some("Amaranth deep purple"),
        (241, 156, 187) => Some("Amaranth pink"),
        (171, 39, 79) => Some("Amaranth purple"),
        (59, 122, 87) => Some("Amazon"),
        (255, 191, 0) => Some("Amber"),
        (153, 102, 204) => Some("Amethyst"),
        (61, 220, 132) => Some("Android green"),
        (205, 149, 117) => Some("Antique brass"),
        (102, 93, 30) => Some("Antique bronze"),
        (145, 92, 131) => Some("Antique fuchsia"),
        (132, 27, 45) => Some("Antique ruby"),
        (250, 235, 215) => Some("Antique white"),
        (251, 206, 117) => Some("Apricot"),
        (0, 255, 255) => Some("Aqua"),
        (127, 255, 212) => Some("Aquamarine"),
        (208, 255, 20) => Some("Arctic lime"),
        (75, 111, 68) => Some("Artichoke green"),
        (233, 214, 107) => Some("Arylide yellow"),
        (178, 190, 181) => Some("Ash gray"),
        (123, 160, 123) => Some("Asparagus"),
        (255, 153, 102) => Some("Atomic tangerine"),
        (253, 238, 0) => Some("Aureolin"),
        (195, 153, 83) => Some("Aztec gold"),
        (0, 127, 255) => Some("Azure"),
        (137, 207, 240) => Some("Baby blue"),
        (161, 202, 241) => Some("Baby blue eyes"),
        (244, 194, 194) => Some("Baby pink"),
        (254, 254, 250) => Some("Baby powder"),
        (255, 145, 175) => Some("Baker-Miller pink"),
        (250, 231, 181) => Some("Banana mania"),
        (224, 33, 138) => Some("Barbie pink"),
        (124, 10, 2) => Some("Barn red"),
        (132, 132, 130) => Some("Battleship gray"),
        (188, 212, 230) => Some("Beau blue"),
        (159, 129, 112) => Some("Beaver"),
        (245, 245, 220) => Some("Beige"),
        (164, 52, 130) => Some("Berry parfait"),
        (46, 88, 148) => Some("B'dazzled blue"),
        (156, 37, 66) => Some("Big dip 'ruby"),
        (232, 142, 90) => Some("Big foot feet"),
        (255, 228, 196) => Some("Bisque"),
        (61, 43, 31) => Some("Bistre"),
        (150, 113, 23) => Some("Bistre brown"),
        (202, 224, 13) => Some("Bitter lemon"),
        (254, 111, 94) => Some("Bittersweet"),
        (191, 79, 81) => Some("Bittersweet shimmer"),
        (0, 0, 0) => Some("Black"),
        (61, 12, 2) => Some("Black bean"),
        (84, 98, 111) => Some("Black coral"),
        (59, 60, 54) => Some("Black olive"),
        (191, 175, 178) => Some("Black shadows"),
        (255, 235, 205) => Some("Blanched almond"),
        (165, 113, 100) => Some("Blast-off bronze"),
        (49, 140, 231) => Some("Bleu de France"),
        (80, 191, 230) => Some("Blizzard blue"),
        (102, 0, 0) => Some("Blood red"),
        (0, 0, 255) => Some("Blue"),
        (162, 162, 208) => Some("Blue bell"),
        (102, 153, 204) => Some("Blue-gray"),
        (13, 152, 186) => Some("Blue-green"),
        (93, 173, 236) => Some("Blue jeans"),
        (11, 16, 162) => Some("Blue ribbon"),
        (18, 97, 128) => Some("Blue sapphire"),
        (138, 43, 226) => Some("Blue-violet"),
        (80, 114, 167) => Some("Blue yonder"),
        (79, 134, 247) => Some("Blueberry"),
        (60, 105, 231) => Some("Bluetiful"),
        (222, 93, 131) => Some("Blush"),
        (121, 68, 59) => Some("Bole"),
        (227, 218, 201) => Some("Bone"),
        (221, 226, 106) => Some("Booger buster"),
        (203, 65, 84) => Some("Brick red"),
        (102, 255, 0) => Some("Bright green"),
        (216, 145, 239) => Some("Bright lilac"),
        (195, 33, 72) => Some("Bright maroon"),
        (25, 116, 210) => Some("Bright navy blue"),
        (255, 0, 127) => Some("Bright pink"),
        (8, 232, 222) => Some("Bright turquoise"),
        (230, 103, 206) => Some("Brilliant rose"),
        (251, 96, 127) => Some("Brink pink"),
        (0, 66, 37) => Some("British racing green"),
        (205, 127, 50) => Some("Bronze"),
        (150, 75, 0) => Some("Brown"),
        (175, 110, 77) => Some("Brown sugar"),
        (123, 182, 97) => Some("Bud green"),
        (240, 220, 130) => Some("Buff"),
        (128, 0, 32) => Some("Burgundy"),
        (222, 184, 135) => Some("Burlywood"),
        (161, 122, 116) => Some("Burnished brown"),
        (204, 85, 0) => Some("Burnt orange"),
        (233, 116, 81) => Some("Burnt sienna"),
        (138, 51, 36) => Some("Burnt umber"),
        (189, 51, 164) => Some("Byzantine"),
        (112, 41, 99) => Some("Byzantium"),
        (83, 104, 114) => Some("Cadet"),
        (95, 158, 160) => Some("Cadet blue"),
        (145, 163, 176) => Some("Cadet gray"),
        (0, 107, 60) => Some("Cadmium"),
        (237, 135, 45) => Some("Cadmium orange"),
        (227, 0, 34) => Some("Cadmium red"),
        (255, 246, 0) => Some("Cadmium yellow"),
        (166, 123, 91) => Some("Café au lait"),
        (75, 54, 33) => Some("Café Noir"),
        (163, 193, 173) => Some("Cambridge blue"),
        (193, 154, 107) => Some("Camel"),
        (239, 187, 204) => Some("Cameo pink"),
        (255, 255, 153) => Some("Canary"),
        (255, 239, 0) => Some("Canary yellow"),
        (255, 8, 0) => Some("Candy apple red"),
        (228, 113, 122) => Some("Candy pink"),
        (196, 30, 58) => Some("Cardinal"),
        (0, 204, 153) => Some("Caribbean green"),
        (150, 0, 24) => Some("Carmine"),
        (255, 166, 201) => Some("Carnation pink"),
        (86, 160, 211) => Some("Carolina blue"),
        (237, 145, 33) => Some("Carrot orange"),
        (112, 54, 66) => Some("Catawba"),
        (202, 52, 53) => Some("Cedar chest"),
        (172, 225, 175) => Some("Celadon"),
        (178, 255, 255) => Some("Celeste"),
        (222, 49, 99) => Some("Cerise"),
        (0, 123, 167) => Some("Cerulean"),
        (42, 82, 190) => Some("Cerulean blue"),
        (109, 155, 195) => Some("Cerulean frost"),
        (247, 231, 206) => Some("Champagne"),
        (241, 221, 207) => Some("Champagne pink"),
        (54, 69, 79) => Some("Charcoal"),
        (35, 43, 43) => Some("Charleston green"),
        (230, 143, 172) => Some("Charm pink"),
        (127, 255, 0) => Some("Chartreuse"),
        (255, 183, 197) => Some("Cherry blossom pink"),
        (149, 69, 53) => Some("Chestnut"),
        (222, 111, 161) => Some("China pink"),
        (170, 56, 30) => Some("Chinese red"),
        (133, 96, 126) => Some("Chinese violet"),
        (123, 63, 0) => Some("Chocolate"),
        (152, 129, 123) => Some("Cinereous"),
        (205, 96, 126) => Some("Cinnamon Satin"),
        (228, 208, 10) => Some("Citrine"),
        (158, 169, 31) => Some("Citron"),
        (127, 23, 52) => Some("Claret"),
        (0, 71, 171) => Some("Cobalt blue"),
        (210, 105, 30) => Some("Cocoa brown"),
        (150, 90, 62) => Some("Coconut"),
        (111, 78, 55) => Some("Coffee"),
        (196, 216, 226) => Some("Columbia blue"),
        (248, 131, 121) => Some("Congo pink"),
        (140, 146, 172) => Some("Cool grey"),
        (184, 115, 51) => Some("Copper"),
        (173, 111, 105) => Some("Copper penny"),
        (203, 109, 81) => Some("Copper red"),
        (153, 102, 102) => Some("Copper rose"),
        (255, 56, 0) => Some("Coquelicot"),
        (255, 127, 80) => Some("Coral"),
        (137, 63, 69) => Some("Cordovan"),
        (100, 149, 237) => Some("Cornflower blue"),
        (255, 248, 220) => Some("Cornsilk"),
        (46, 45, 136) => Some("Cosmic cobalt"),
        (255, 248, 231) => Some("Cosmic latte"),
        (129, 97, 60) => Some("Coyote brown"),
        (255, 188, 217) => Some("Cotton candy"),
        (255, 253, 208) => Some("Cream"),
        (220, 20, 60) => Some("Crimson"),
        (245, 245, 245) => Some("Cultured"),
        (88, 66, 124) => Some("Cyber grape"),
        (255, 211, 0) => Some("Cyber yellow"),
        (245, 111, 161) => Some("Cyclamen"),
        _ => None,
    }
}

/// The name of `color` in the color table, if it has one.
pub fn color_to_name(color: (u8, u8, u8)) -> (r: Option<&'static str>)
    ensures
        r == color_name_spec(color),
{
    match color {
        (0, 72, 186) => Some("Absolute zero"),
        (176, 191, 26) => Some("Acid green"),
        (0, 185, 232) => Some("Aero"),
        (178, 132, 190) => Some("African violet"),
        (114, 160, 193) => Some("Air superiority blue"),
        (242, 240, 230) => Some("Alabaster"),
        (240, 248, 255) => Some("Alice blue"),
        (219, 45, 67) => Some("Alizarin"),
        (196, 98, 16) => Some("Alloy orange"),
        (239, 222, 205) => Some("Almond"),
        (229, 43, 80) => Some("Amaranth"),
        (159, 43, 104) => Some("Amaranth deep purple"),
        (241, 156, 187) => Some("Amaranth pink"),
        (171, 39, 79) => Some("Amaranth purple"),
        (59, 122, 87) => Some("Amazon"),
        (255, 191, 0) => Some("Amber"),
        (153, 102, 204) => Some("Amethyst"),
        (61, 220, 132) => Some("Android green"),
        (205, 149, 117) => Some("Antique brass"),
        (102, 93, 30) => Some("Antique bronze"),
        (145, 92, 131) => Some("Antique fuchsia"),
        (132, 27, 45) => Some("Antique ruby"),
        (250, 235, 215) => Some("Antique white"),
        (251, 206, 117) => Some("Apricot"),
        (0, 255, 255) => Some("Aqua"),
        (127, 255, 212) => Some("Aquamarine"),
        (208, 255, 20) => Some("Arctic lime"),
        (75, 111, 68) => Some("Artichoke green"),
        (233, 214, 107) => Some("Arylide yellow"),
        (178, 190, 181) => Some("Ash gray"),
        (123, 160, 123) => Some("Asparagus"),
        (255, 153, 102) => Some("Atomic tangerine"),
        (253, 238, 0) => Some("Aureolin"),
        (195, 153, 83) => Some("Aztec gold"),
        (0, 127, 255) => Some("Azure"),
        (137, 207, 240) => Some("Baby blue"),
        (161, 202, 241) => Some("Baby blue eyes"),
        (244, 194, 194) => Some("Baby pink"),
        (254, 254, 250) => Some("Baby powder"),
        (255, 145, 175) => Some("Baker-Miller pink"),
        (250, 231, 181) => Some("Banana mania"),
        (224, 33, 138) => Some("Barbie pink"),
        (124, 10, 2) => Some("Barn red"),
        (132, 132, 130) => Some("Battleship gray"),
        (188, 212, 230) => Some("Beau blue"),
        (159, 129, 112) => Some("Beaver"),
        (245, 245, 220) => Some("Beige"),
        (164, 52, 130) => Some("Berry parfait"),
        (46, 88, 148) => Some("B'dazzled blue"),
        (156, 37, 66) => Some("Big dip 'ruby"),
        (232, 142, 90) => Some("Big foot feet"),
        (255, 228, 196) => Some("Bisque"),
        (61, 43, 31) => Some("Bistre"),
        (150, 113, 23) => Some("Bistre brown"),
        (202, 224, 13) => Some("Bitter lemon"),
        (254, 111, 94) => Some("Bittersweet"),
        (191, 79, 81) => Some("Bittersweet shimmer"),
        (0, 0, 0) => Some("Black"),
        (61, 12, 2) => Some("Black bean"),
        (84, 98, 111) => Some("Black coral"),
        (59, 60, 54) => Some("Black olive"),
        (191, 175, 178) => Some("Black shadows"),
        (255, 235, 205) => Some("Blanched almond"),
        (165, 113, 100) => Some("Blast-off bronze"),
        (49, 140, 231) => Some("Bleu de France"),
        (80, 191, 230) => Some("Blizzard blue"),
        (102, 0, 0) => Some("Blood red"),
        (0, 0, 255) => Some("Blue"),
        (162, 162, 208) => Some("Blue bell"),
        (102, 153, 204) => Some("Blue-gray"),
        (13, 152, 186) => Some("Blue-green"),
        (93, 173, 236) => Some("Blue jeans"),
        (11, 16, 162) => Some("Blue ribbon"),
        (18, 97, 128) => Some("Blue sapphire"),
        (138, 43, 226) => Some("Blue-violet"),
        (80, 114, 167) => Some("Blue yonder"),
        (79, 134, 247) => Some("Blueberry"),
        (60, 105, 231) => Some("Bluetiful"),
        (222, 93, 131) => Some("Blush"),
        (121, 68, 59) => Some("Bole"),
        (227, 218, 201) => Some("Bone"),
        (221, 226, 106) => Some("Booger buster"),
        (203, 65, 84) => Some("Brick red"),
        (102, 255, 0) => Some("Bright green"),
        (216, 145, 239) => Some("Bright lilac"),
        (195, 33, 72) => Some("Bright maroon"),
        (25, 116, 210) => Some("Bright navy blue"),
        (255, 0, 127) => Some("Bright pink"),
        (8, 232, 222) => Some("Bright turquoise"),
        (230, 103, 206) => Some("Brilliant rose"),
        (251, 96, 127) => Some("Brink pink"),
        (0, 66, 37) => Some("British racing green"),
        (205, 127, 50) => Some("Bronze"),
        (150, 75, 0) => Some("Brown"),
        (175, 110, 77) => Some("Brown sugar"),
        (123, 182, 97) => Some("Bud green"),
        (240, 220, 130) => Some("Buff"),
        (128, 0, 32) => Some("Burgundy"),
        (222, 184, 135) => Some("Burlywood"),
        (161, 122, 116) => Some("Burnished brown"),
        (204, 85, 0) => Some("Burnt orange"),
        (233, 116, 81) => Some("Burnt sienna"),
        (138, 51, 36) => Some("Burnt umber"),
        (189, 51, 164) => Some("Byzantine"),
        (112, 41, 99) => Some("Byzantium"),
        (83, 104, 114) => Some("Cadet"),
        (95, 158, 160) => Some("Cadet blue"),
        (145, 163, 176) => Some("Cadet gray"),
        (0, 107, 60) => Some("Cadmium"),
        (237, 135, 45) => Some("Cadmium orange"),
        (227, 0, 34) => Some("Cadmium red"),
        (255, 246, 0) => Some("Cadmium yellow"),
        (166, 123, 91) => Some("Café au lait"),
        (75, 54, 33) => Some("Café Noir"),
        (163, 193, 173) => Some("Cambridge blue"),
        (193, 154, 107) => Some("Camel"),
        (239, 187, 204) => Some("Cameo pink"),
        (255, 255, 153) => Some("Canary"),
        (255, 239, 0) => Some("Canary yellow"),
        (255, 8, 0) => Some("Candy apple red"),
        (228, 113, 122) => Some("Candy pink"),
        (196, 30, 58) => Some("Cardinal"),
        (0, 204, 153) => Some("Caribbean green"),
        (150, 0, 24) => Some("Carmine"),
        (255, 166, 201) => Some("Carnation pink"),
        (86, 160, 211) => Some("Carolina blue"),
        (237, 145, 33) => Some("Carrot orange"),
        (112, 54, 66) => Some("Catawba"),
        (202, 52, 53) => Some("Cedar chest"),
        (172, 225, 175) => Some("Celadon"),
        (178, 255, 255) => Some("Celeste"),
        (222, 49, 99) => Some("Cerise"),
        (0, 123, 167) => Some("Cerulean"),
        (42, 82, 190) => Some("Cerulean blue"),
        (109, 155, 195) => Some("Cerulean frost"),
        (247, 231, 206) => Some("Champagne"),
        (241, 221, 207) => Some("Champagne pink"),
        (54, 69, 79) => Some("Charcoal"),
        (35, 43, 43) => Some("Charleston green"),
        (230, 143, 172) => Some("Charm pink"),
        (127, 255, 0) => Some("Chartreuse"),
        (255, 183, 197) => Some("Cherry blossom pink"),
        (149, 69, 53) => Some("Chestnut"),
        (222, 111, 161) => Some("China pink"),
        (170, 56, 30) => Some("Chinese red"),
        (133, 96, 126) => Some("Chinese violet"),
        (123, 63, 0) => Some("Chocolate"),
        (152, 129, 123) => Some("Cinereous"),
        (205, 96, 126) => Some("Cinnamon Satin"),
        (228, 208, 10) => Some("Citrine"),
        (158, 169, 31) => Some("Citron"),
        (127, 23, 52) => Some("Claret"),
        (0, 71, 171) => Some("Cobalt blue"),
        (210, 105, 30) => Some("Cocoa brown"),
        (150, 90, 62) => Some("Coconut"),
        (111, 78, 55) => Some("Coffee"),
        (196, 216, 226) => Some("Columbia blue"),
        (248, 131, 121) => Some("Congo pink"),
        (140, 146, 172) => Some("Cool grey"),
        (184, 115, 51) => Some("Copper"),
        (173, 111, 105) => Some("Copper penny"),
        (203, 109, 81) => Some("Copper red"),
        (153, 102, 102) => Some("Copper rose"),
        (255, 56, 0) => Some("Coquelicot"),
        (255, 127, 80) => Some("Coral"),
        (137, 63, 69) => Some("Cordovan"),
        (100, 149, 237) => Some("Cornflower blue"),
        (255, 248, 220) => Some("Cornsilk"),
        (46, 45, 136) => Some("Cosmic cobalt"),
        (255, 248, 231) => Some("Cosmic latte"),
        (129, 97, 60) => Some("Coyote brown"),
        (255, 188, 217) => Some("Cotton candy"),
        (255, 253, 208) => Some("Cream"),
        (220, 20, 60) => Some("Crimson"),
        (245, 245, 245) => Some("Cultured"),
        (88, 66, 124) => Some("Cyber grape"),
        (255, 211, 0) => Some("Cyber yellow"),
        (245, 111, 161) => Some("Cyclamen"),
        _ => None,
    }
}

} // verus!
