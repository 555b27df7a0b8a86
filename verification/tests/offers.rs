use biedbot::api::{visible_offers, Offer, OfferElement};

fn element(name: &str) -> OfferElement {
    OfferElement {
        offer_type: "type".to_string(),
        offer_id_ext: "id-1".to_string(),
        name: name.to_string(),
        promotion_time: "till Sunday".to_string(),
        description: "desc".to_string(),
        promo_price: "1,99".to_string(),
        regular_price: "2,99".to_string(),
        discount: 33,
        tag_top_line: "top".to_string(),
        tag_bottom_line: "bottom".to_string(),
        promo_details: "promo".to_string(),
        price_per_unit: "3,98/kg".to_string(),
        limits: "max 3".to_string(),
        regular_price_per_unit: "5,98/kg".to_string(),
        product_url: "product".to_string(),
        thumb_url: "thumb.png".to_string(),
        image_url: "image.png".to_string(),
        full_screen_image_url: "full.png".to_string(),
    }
}

fn offer(name: &str) -> Offer {
    Offer {
        id: "id-1".to_string(),
        name: name.to_string(),
        details: "desc;promo\ntop;bottom".to_string(),
        limit: "max 3".to_string(),
        image: Some("full.png".to_string()),
        human_time: "till Sunday".to_string(),
        regular_price: "2,99".to_string(),
        regular_price_unit: "5,98/kg".to_string(),
        offer_price: "1,99".to_string(),
        offer_price_unit: "3,98/kg".to_string(),
        discount_percent: 33,
    }
}

#[test]
fn element_becomes_offer() {
    assert_eq!(element("Butter").into_offer(), offer("Butter"));
}

#[test]
fn offer_takes_largest_picture_there_is() {
    let mut no_full = element("a");
    no_full.full_screen_image_url.clear();
    assert_eq!(no_full.into_offer().image, Some("image.png".to_string()));
    let mut thumb_only = element("a");
    thumb_only.full_screen_image_url.clear();
    thumb_only.image_url.clear();
    assert_eq!(thumb_only.into_offer().image, Some("thumb.png".to_string()));
    let mut none = element("a");
    none.full_screen_image_url.clear();
    none.image_url.clear();
    none.thumb_url.clear();
    assert_eq!(none.into_offer().image, None);
}

#[test]
fn offer_details_of_empty_parts() {
    let mut bare = element("a");
    bare.description.clear();
    bare.promo_details.clear();
    bare.tag_top_line.clear();
    bare.tag_bottom_line.clear();
    assert_eq!(bare.into_offer().details, ";\n;");
}

#[test]
fn visible_offers_drop_nameless_and_keep_order() {
    let listed = vec![element("Butter"), element(""), element("Milk"), element(""), element("Bread")];
    assert_eq!(visible_offers(listed), vec![offer("Butter"), offer("Milk"), offer("Bread")]);
}

#[test]
fn visible_offers_of_nothing() {
    assert_eq!(visible_offers(Vec::new()), Vec::<Offer>::new());
    assert_eq!(visible_offers(vec![element(""), element("")]), Vec::<Offer>::new());
}

#[test]
fn offer_short_display() {
    assert_eq!(offer("Butter").short_display(), "Butter - 5,98/kg => 3,98/kg");
}

#[test]
fn offer_display_in_full() {
    assert_eq!(
        offer("Butter").display(),
        "Butter\ndesc;promo\ntop;bottom\n2,99 -> 1,99\n5,98/kg -> 3,98/kg\nmax 3"
    );
}

#[test]
fn offer_caption_with_markup() {
    assert_eq!(
        offer("Butter").caption(),
        "<b>Butter</b>\n<code>desc;promo\ntop;bottom</code>\nmax 3\n2,99 -> 1,99\n5,98/kg -> 3,98/kg"
    );
}
