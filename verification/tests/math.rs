use amm_sim_rs::math::wide::{div_wide, mul_div_ceil, mul_div_floor, mul_div_rem, mul_le, mul_wide};

#[test]
fn full_products() {
    assert_eq!(mul_wide(182351197513746578273739114804114390992, 147561980648234510403757163971261920716), (79075810251895058116701408436188446167, 286604549998879437680932513969199901120));
    assert_eq!(mul_wide(192413922384266855479841980320213453350, 199249421930134134061424214152593608105), (112666322246672393973484474829087861585, 266090536978098786000701635003460083990));
    assert_eq!(mul_wide(98548934126153644591862516411143395134, 194271862749270911701471291964587370148), (56262935919601427119272744668719758641, 45143423642319261502878123312508868536));
    assert_eq!(mul_wide(217410987587412358104004997348832959458, 242318736920647281127093053908080488963), (154820704879758431771830039120957150513, 326031515276246426594795061218792585126));
    assert_eq!(mul_wide(314230819189409437939273533960347185903, 270313330324417869790219544300165835096), (249618515335513938802107074360051335527, 317069084333343968437693632830612654376));
    assert_eq!(mul_wide(174201716484959379841850246241790508344, 225999286425046781466511780747287379329), (115696455199414632087125700690679116802, 108948489311230302866099615405209137464));
    assert_eq!(mul_wide(340282366920938463463374607431768211455, 340282366920938463463374607431768211455), (340282366920938463463374607431768211454, 1));
    assert_eq!(mul_wide(340282366920938463463374607431768211455, 340282366920938463463374607431768211455), (340282366920938463463374607431768211454, 1));
    assert_eq!(mul_wide(0, 5), (0, 0));
    assert_eq!(mul_wide(1000000000000000000000, 99750000000000000000), (293, 47266492165030205231240022491914043392));
    assert_eq!(mul_wide(7, 3), (0, 21));
    assert_eq!(mul_wide(18446744073709551616, 18446744073709551616), (1, 0));
    assert_eq!(mul_wide(18446744073709551616, 18446744073709551615), (0, 340282366920938463444927863358058659840));
    assert_eq!(mul_wide(340282366920938463463374607431768211455, 2), (1, 340282366920938463463374607431768211454));
    assert_eq!(mul_wide(340282366920938463463374607431768211455, 2), (1, 340282366920938463463374607431768211454));
}

#[test]
fn wide_quotients() {
    assert_eq!(div_wide(79075810251895058116701408436188446167, 286604549998879437680932513969199901120, 187511663845513135275015529792981306256), (143500960563577927785073968101677498562, 166298283728582452869780457729206986400));
    assert_eq!(div_wide(56262935919601427119272744668719758641, 45143423642319261502878123312508868536, 61498000989836585213151688596277495129), (311315566302831377930430483242753851308, 55583979590897823516913026173119781100));
    assert_eq!(div_wide(340282366920938463463374607431768211454, 1, 340282366920938463463374607431768211455), (340282366920938463463374607431768211455, 0));
    assert_eq!(div_wide(0, 0, 3), (0, 0));
    assert_eq!(div_wide(293, 47266492165030205231240022491914043392, 1009975000000000000000), (98764820911408698235, 105875000000000000000));
    assert_eq!(div_wide(0, 21, 2), (10, 1));
    assert_eq!(div_wide(0, 340282366920938463444927863358058659840, 1), (340282366920938463444927863358058659840, 0));
    assert_eq!(div_wide(1, 340282366920938463463374607431768211454, 2), (340282366920938463463374607431768211455, 0));
    assert_eq!(div_wide(0, 0, 1), (0, 0));
    assert_eq!(div_wide(340282366920938463463374607431768211454, 340282366920938463463374607431768211455, 340282366920938463463374607431768211455), (340282366920938463463374607431768211455, 340282366920938463463374607431768211454));
}

#[test]
fn scaled_quotients_round_both_ways() {
    assert_eq!(mul_div_floor(182351197513746578273739114804114390992, 147561980648234510403757163971261920716, 187511663845513135275015529792981306256), Some(143500960563577927785073968101677498562));
    assert_eq!(mul_div_ceil(182351197513746578273739114804114390992, 147561980648234510403757163971261920716, 187511663845513135275015529792981306256), Some(143500960563577927785073968101677498563));
    assert_eq!(mul_div_rem(182351197513746578273739114804114390992, 147561980648234510403757163971261920716, 187511663845513135275015529792981306256), Some((143500960563577927785073968101677498562, 166298283728582452869780457729206986400)));
    assert_eq!(mul_div_floor(192413922384266855479841980320213453350, 199249421930134134061424214152593608105, 15851264691985588465451181877601886877), None);
    assert_eq!(mul_div_ceil(192413922384266855479841980320213453350, 199249421930134134061424214152593608105, 15851264691985588465451181877601886877), None);
    assert_eq!(mul_div_rem(192413922384266855479841980320213453350, 199249421930134134061424214152593608105, 15851264691985588465451181877601886877), None);
    assert_eq!(mul_div_floor(98548934126153644591862516411143395134, 194271862749270911701471291964587370148, 61498000989836585213151688596277495129), Some(311315566302831377930430483242753851308));
    assert_eq!(mul_div_ceil(98548934126153644591862516411143395134, 194271862749270911701471291964587370148, 61498000989836585213151688596277495129), Some(311315566302831377930430483242753851309));
    assert_eq!(mul_div_rem(98548934126153644591862516411143395134, 194271862749270911701471291964587370148, 61498000989836585213151688596277495129), Some((311315566302831377930430483242753851308, 55583979590897823516913026173119781100)));
    assert_eq!(mul_div_floor(217410987587412358104004997348832959458, 242318736920647281127093053908080488963, 70084119532706062974530638390018863300), None);
    assert_eq!(mul_div_ceil(217410987587412358104004997348832959458, 242318736920647281127093053908080488963, 70084119532706062974530638390018863300), None);
    assert_eq!(mul_div_rem(217410987587412358104004997348832959458, 242318736920647281127093053908080488963, 70084119532706062974530638390018863300), None);
    assert_eq!(mul_div_floor(314230819189409437939273533960347185903, 270313330324417869790219544300165835096, 27853817836998792224977945112333077653), None);
    assert_eq!(mul_div_ceil(314230819189409437939273533960347185903, 270313330324417869790219544300165835096, 27853817836998792224977945112333077653), None);
    assert_eq!(mul_div_rem(314230819189409437939273533960347185903, 270313330324417869790219544300165835096, 27853817836998792224977945112333077653), None);
    assert_eq!(mul_div_floor(174201716484959379841850246241790508344, 225999286425046781466511780747287379329, 105353930181213365113543134032041609228), None);
    assert_eq!(mul_div_ceil(174201716484959379841850246241790508344, 225999286425046781466511780747287379329, 105353930181213365113543134032041609228), None);
    assert_eq!(mul_div_rem(174201716484959379841850246241790508344, 225999286425046781466511780747287379329, 105353930181213365113543134032041609228), None);
    assert_eq!(mul_div_floor(340282366920938463463374607431768211455, 340282366920938463463374607431768211455, 340282366920938463463374607431768211455), Some(340282366920938463463374607431768211455));
    assert_eq!(mul_div_ceil(340282366920938463463374607431768211455, 340282366920938463463374607431768211455, 340282366920938463463374607431768211455), Some(340282366920938463463374607431768211455));
    assert_eq!(mul_div_rem(340282366920938463463374607431768211455, 340282366920938463463374607431768211455, 340282366920938463463374607431768211455), Some((340282366920938463463374607431768211455, 0)));
    assert_eq!(mul_div_floor(340282366920938463463374607431768211455, 340282366920938463463374607431768211455, 1), None);
    assert_eq!(mul_div_ceil(340282366920938463463374607431768211455, 340282366920938463463374607431768211455, 1), None);
    assert_eq!(mul_div_rem(340282366920938463463374607431768211455, 340282366920938463463374607431768211455, 1), None);
    assert_eq!(mul_div_floor(0, 5, 3), Some(0));
    assert_eq!(mul_div_ceil(0, 5, 3), Some(0));
    assert_eq!(mul_div_rem(0, 5, 3), Some((0, 0)));
    assert_eq!(mul_div_floor(1000000000000000000000, 99750000000000000000, 1009975000000000000000), Some(98764820911408698235));
    assert_eq!(mul_div_ceil(1000000000000000000000, 99750000000000000000, 1009975000000000000000), Some(98764820911408698236));
    assert_eq!(mul_div_rem(1000000000000000000000, 99750000000000000000, 1009975000000000000000), Some((98764820911408698235, 105875000000000000000)));
    assert_eq!(mul_div_floor(7, 3, 2), Some(10));
    assert_eq!(mul_div_ceil(7, 3, 2), Some(11));
    assert_eq!(mul_div_rem(7, 3, 2), Some((10, 1)));
    assert_eq!(mul_div_floor(18446744073709551616, 18446744073709551616, 1), None);
    assert_eq!(mul_div_ceil(18446744073709551616, 18446744073709551616, 1), None);
    assert_eq!(mul_div_rem(18446744073709551616, 18446744073709551616, 1), None);
    assert_eq!(mul_div_floor(18446744073709551616, 18446744073709551615, 1), Some(340282366920938463444927863358058659840));
    assert_eq!(mul_div_ceil(18446744073709551616, 18446744073709551615, 1), Some(340282366920938463444927863358058659840));
    assert_eq!(mul_div_rem(18446744073709551616, 18446744073709551615, 1), Some((340282366920938463444927863358058659840, 0)));
    assert_eq!(mul_div_floor(340282366920938463463374607431768211455, 2, 2), Some(340282366920938463463374607431768211455));
    assert_eq!(mul_div_ceil(340282366920938463463374607431768211455, 2, 2), Some(340282366920938463463374607431768211455));
    assert_eq!(mul_div_rem(340282366920938463463374607431768211455, 2, 2), Some((340282366920938463463374607431768211455, 0)));
    assert_eq!(mul_div_floor(340282366920938463463374607431768211455, 2, 1), None);
    assert_eq!(mul_div_ceil(340282366920938463463374607431768211455, 2, 1), None);
    assert_eq!(mul_div_rem(340282366920938463463374607431768211455, 2, 1), None);
}

#[test]
fn products_compare_in_full() {
    assert_eq!(mul_le(182351197513746578273739114804114390992, 147561980648234510403757163971261920716, 192413922384266855479841980320213453350, 199249421930134134061424214152593608105), true);
    assert_eq!(mul_le(192413922384266855479841980320213453350, 199249421930134134061424214152593608105, 98548934126153644591862516411143395134, 194271862749270911701471291964587370148), false);
    assert_eq!(mul_le(98548934126153644591862516411143395134, 194271862749270911701471291964587370148, 217410987587412358104004997348832959458, 242318736920647281127093053908080488963), true);
    assert_eq!(mul_le(217410987587412358104004997348832959458, 242318736920647281127093053908080488963, 314230819189409437939273533960347185903, 270313330324417869790219544300165835096), true);
    assert_eq!(mul_le(314230819189409437939273533960347185903, 270313330324417869790219544300165835096, 174201716484959379841850246241790508344, 225999286425046781466511780747287379329), false);
    assert_eq!(mul_le(174201716484959379841850246241790508344, 225999286425046781466511780747287379329, 340282366920938463463374607431768211455, 340282366920938463463374607431768211455), true);
    assert_eq!(mul_le(340282366920938463463374607431768211455, 340282366920938463463374607431768211455, 340282366920938463463374607431768211455, 340282366920938463463374607431768211455), true);
    assert_eq!(mul_le(340282366920938463463374607431768211455, 340282366920938463463374607431768211455, 0, 5), false);
    assert_eq!(mul_le(0, 5, 1000000000000000000000, 99750000000000000000), true);
    assert_eq!(mul_le(1000000000000000000000, 99750000000000000000, 7, 3), false);
    assert_eq!(mul_le(7, 3, 18446744073709551616, 18446744073709551616), true);
    assert_eq!(mul_le(18446744073709551616, 18446744073709551616, 18446744073709551616, 18446744073709551615), false);
    assert_eq!(mul_le(18446744073709551616, 18446744073709551615, 340282366920938463463374607431768211455, 2), true);
    assert_eq!(mul_le(340282366920938463463374607431768211455, 2, 340282366920938463463374607431768211455, 2), true);
    assert!(mul_le(340282366920938463463374607431768211455, 340282366920938463463374607431768211455, 340282366920938463463374607431768211455, 340282366920938463463374607431768211455));
    assert!(!mul_le(340282366920938463463374607431768211455, 340282366920938463463374607431768211455, 340282366920938463463374607431768211455, 340282366920938463463374607431768211454));
    assert!(mul_le(0, 340282366920938463463374607431768211455, 0, 0));
    // the two products agree in their low words only
    assert!(!mul_le(18446744073709551616, 18446744073709551616, 1, 0));
}
