//! The values exchanged with the backend: session credentials, stored
//! accounts, offers, and the transport-level error.

use vstd::prelude::*;
use vstd::string::*;

verus! {

/// A failure of the transport: the network, a response outside the 2xx
/// range, or a body that could not be decoded. Holds its description.
#[derive(Debug, Clone, PartialEq, Eq)]
pub struct ApiError(pub String);

impl View for ApiError {
    type V = Seq<char>;

    open spec fn view(&self) -> Seq<char> {
        self.0@
    }
}

impl ApiError {
    /// A transport error with the given description.
    pub fn new(description: String) -> (e: ApiError)
        ensures
            e@ == description@,
    {
        ApiError(description)
    }

    /// The description this error was made with.
    pub fn description(&self) -> (text: &String)
        ensures
            text@ == self@,
    {
        &self.0
    }
}

/// What [`AuthData`] stands for: the two session cookies and the token.
pub struct Credentials {
    pub users1: Seq<char>,
    pub users2: Seq<char>,
    pub csrf_token: Seq<char>,
}

impl Credentials {
    /// A request made with these credentials is authenticated exactly when
    /// none of the three values is empty.
    pub open spec fn is_authenticated(self) -> bool {
        self.users1.len() > 0 && self.users2.len() > 0 && self.csrf_token.len() > 0
    }

    /// The credentials of an anonymous request: no cookies, and the token
    /// that the configuration supplies.
    pub open spec fn anonymous(csrf_token: Seq<char>) -> Credentials {
        Credentials { users1: Seq::empty(), users2: Seq::empty(), csrf_token }
    }
}

/// Session credentials: the values of the two session cookies, as the
/// backend set them, and the token recovered from the second.
#[derive(Debug, Clone, PartialEq, Eq)]
pub struct AuthData {
    pub users1: String,
    pub users2: String,
    pub csrf_token: String,
}

impl View for AuthData {
    type V = Credentials;

    open spec fn view(&self) -> Credentials {
        Credentials {
            users1: self.users1@,
            users2: self.users2@,
            csrf_token: self.csrf_token@,
        }
    }
}

impl AuthData {
    /// Credentials for a call made before login: empty cookies and the
    /// configured token.
    pub fn anonymous(csrf_token: &str) -> (auth: AuthData)
        ensures
            auth@ == Credentials::anonymous(csrf_token@),
            !auth@.is_authenticated(),
    {
        AuthData { users1: String::new(), users2: String::new(), csrf_token: csrf_token.to_owned() }
    }

    /// Whether calls made with these credentials are authenticated.
    pub fn is_authenticated(&self) -> (yes: bool)
        ensures
            yes == self@.is_authenticated(),
    {
        !self.users1.as_str().is_empty() && !self.users2.as_str().is_empty()
            && !self.csrf_token.as_str().is_empty()
    }
}

/// What [`AuthenticatedUser`] stands for.
pub struct UserView {
    pub phone_number: Seq<char>,
    pub card_number: Seq<char>,
    pub auth: Credentials,
}

/// An account as the store keeps it under its title.
#[derive(Debug, Clone, PartialEq, Eq)]
pub struct AuthenticatedUser {
    pub phone_number: String,
    pub card_number: String,
    pub auth: AuthData,
}

impl View for AuthenticatedUser {
    type V = UserView;

    open spec fn view(&self) -> UserView {
        UserView {
            phone_number: self.phone_number@,
            card_number: self.card_number@,
            auth: self.auth@,
        }
    }
}

/// What [`AccountRecord`] stands for.
pub struct AccountView {
    pub title: Seq<char>,
    pub phone_number: Seq<char>,
    pub card_number: Seq<char>,
    pub external_customer_id: Seq<char>,
    pub auth_token: Seq<char>,
    pub credentials: Credentials,
}

impl AccountView {
    /// The part of the account that the store keeps under the title.
    pub open spec fn stored(self) -> UserView {
        UserView {
            phone_number: self.phone_number,
            card_number: self.card_number,
            auth: self.credentials,
        }
    }
}

/// A provisioned account: the operator's title for it, what the backend
/// knows it by, and the credentials of its session. The store, not this
/// type, keeps titles unique.
#[derive(Debug, Clone, PartialEq, Eq)]
pub struct AccountRecord {
    pub title: String,
    pub phone_number: String,
    pub card_number: String,
    pub external_customer_id: String,
    pub auth_token: String,
    pub credentials: AuthData,
}

impl View for AccountRecord {
    type V = AccountView;

    open spec fn view(&self) -> AccountView {
        AccountView {
            title: self.title@,
            phone_number: self.phone_number@,
            card_number: self.card_number@,
            external_customer_id: self.external_customer_id@,
            auth_token: self.auth_token@,
            credentials: self.credentials@,
        }
    }
}

impl AccountRecord {
    /// Splits the record into the key and the value that the store keeps.
    pub fn into_stored(self) -> (entry: (String, AuthenticatedUser))
        ensures
            entry.0@ == self@.title,
            entry.1@ == self@.stored(),
    {
        (
            self.title,
            AuthenticatedUser {
                phone_number: self.phone_number,
                card_number: self.card_number,
                auth: self.credentials,
            },
        )
    }
}

/// The line that stands for a user in a listing.
pub open spec fn user_line(user: UserView) -> Seq<char> {
    "phone: `"@ + user.phone_number + "`; card: `"@ + user.card_number + "`;"@
}

impl AuthenticatedUser {
    /// The user as shown in a listing: phone and card number, each between
    /// backticks.
    pub fn display(&self) -> (text: String)
        ensures
            text@ == user_line(self@),
    {
        let mut text: String = "phone: `".to_owned();
        text.append(self.phone_number.as_str());
        text.append("`; card: `");
        text.append(self.card_number.as_str());
        text.append("`;");
        text
    }
}

/// What [`Offer`] stands for.
pub struct OfferView {
    pub id: Seq<char>,
    pub name: Seq<char>,
    pub details: Seq<char>,
    pub limit: Seq<char>,
    pub image: Option<Seq<char>>,
    pub human_time: Seq<char>,
    pub regular_price: Seq<char>,
    pub regular_price_unit: Seq<char>,
    pub offer_price: Seq<char>,
    pub offer_price_unit: Seq<char>,
    pub discount_percent: i32,
}

/// A promotional offer, as shown to the user.
#[derive(Debug, Clone, PartialEq, Eq)]
pub struct Offer {
    pub id: String,
    pub name: String,
    pub details: String,
    pub limit: String,
    pub image: Option<String>,
    pub human_time: String,
    pub regular_price: String,
    pub regular_price_unit: String,
    pub offer_price: String,
    pub offer_price_unit: String,
    pub discount_percent: i32,
}

impl View for Offer {
    type V = OfferView;

    open spec fn view(&self) -> OfferView {
        OfferView {
            id: self.id@,
            name: self.name@,
            details: self.details@,
            limit: self.limit@,
            image: match self.image {
                Some(url) => Some(url@),
                None => None,
            },
            human_time: self.human_time@,
            regular_price: self.regular_price@,
            regular_price_unit: self.regular_price_unit@,
            offer_price: self.offer_price@,
            offer_price_unit: self.offer_price_unit@,
            discount_percent: self.discount_percent,
        }
    }
}

/// One line for an offer: its name and how the unit price changes.
pub open spec fn short_line(offer: OfferView) -> Seq<char> {
    offer.name + " - "@ + offer.regular_price_unit + " => "@ + offer.offer_price_unit
}

/// An offer in full, on seven lines: name, details, the price and the
/// unit price before and after, and the limit.
pub open spec fn full_text(offer: OfferView) -> Seq<char> {
    offer.name + "\n"@ + offer.details + "\n"@ + offer.regular_price + " -> "@
        + offer.offer_price + "\n"@ + offer.regular_price_unit + " -> "@ + offer.offer_price_unit
        + "\n"@ + offer.limit
}

/// An offer as the caption of its picture, marked up for the chat: the name
/// in bold, the details in fixed width, then the limit and the prices.
pub open spec fn caption_text(offer: OfferView) -> Seq<char> {
    "<b>"@ + offer.name + "</b>\n<code>"@ + offer.details + "</code>\n"@ + offer.limit + "\n"@
        + offer.regular_price + " -> "@ + offer.offer_price + "\n"@ + offer.regular_price_unit
        + " -> "@ + offer.offer_price_unit
}

impl Offer {
    /// The offer on one line.
    pub fn short_display(&self) -> (text: String)
        ensures
            text@ == short_line(self@),
    {
        let mut text: String = self.name.clone();
        text.append(" - ");
        text.append(self.regular_price_unit.as_str());
        text.append(" => ");
        text.append(self.offer_price_unit.as_str());
        text
    }

    /// The offer in full.
    pub fn display(&self) -> (text: String)
        ensures
            text@ == full_text(self@),
    {
        let mut text: String = self.name.clone();
        text.append("\n");
        text.append(self.details.as_str());
        text.append("\n");
        text.append(self.regular_price.as_str());
        text.append(" -> ");
        text.append(self.offer_price.as_str());
        text.append("\n");
        text.append(self.regular_price_unit.as_str());
        text.append(" -> ");
        text.append(self.offer_price_unit.as_str());
        text.append("\n");
        text.append(self.limit.as_str());
        text
    }

    /// The offer as a caption with markup.
    pub fn caption(&self) -> (text: String)
        ensures
            text@ == caption_text(self@),
    {
        let mut text: String = "<b>".to_owned();
        text.append(self.name.as_str());
        text.append("</b>\n<code>");
        text.append(self.details.as_str());
        text.append("</code>\n");
        text.append(self.limit.as_str());
        text.append("\n");
        text.append(self.regular_price.as_str());
        text.append(" -> ");
        text.append(self.offer_price.as_str());
        text.append("\n");
        text.append(self.regular_price_unit.as_str());
        text.append(" -> ");
        text.append(self.offer_price_unit.as_str());
        text
    }
}

/// What [`OfferElement`] stands for.
pub struct ElementView {
    pub offer_type: Seq<char>,
    pub offer_id_ext: Seq<char>,
    pub name: Seq<char>,
    pub promotion_time: Seq<char>,
    pub description: Seq<char>,
    pub promo_price: Seq<char>,
    pub regular_price: Seq<char>,
    pub discount: i32,
    pub tag_top_line: Seq<char>,
    pub tag_bottom_line: Seq<char>,
    pub promo_details: Seq<char>,
    pub price_per_unit: Seq<char>,
    pub limits: Seq<char>,
    pub regular_price_per_unit: Seq<char>,
    pub product_url: Seq<char>,
    pub thumb_url: Seq<char>,
    pub image_url: Seq<char>,
    pub full_screen_image_url: Seq<char>,
}

/// An offer as the backend lists it.
#[derive(Debug, Clone, PartialEq, Eq)]
pub struct OfferElement {
    pub offer_type: String,
    pub offer_id_ext: String,
    pub name: String,
    pub promotion_time: String,
    pub description: String,
    pub promo_price: String,
    pub regular_price: String,
    pub discount: i32,
    pub tag_top_line: String,
    pub tag_bottom_line: String,
    pub promo_details: String,
    pub price_per_unit: String,
    pub limits: String,
    pub regular_price_per_unit: String,
    pub product_url: String,
    pub thumb_url: String,
    pub image_url: String,
    pub full_screen_image_url: String,
}

impl View for OfferElement {
    type V = ElementView;

    open spec fn view(&self) -> ElementView {
        ElementView {
            offer_type: self.offer_type@,
            offer_id_ext: self.offer_id_ext@,
            name: self.name@,
            promotion_time: self.promotion_time@,
            description: self.description@,
            promo_price: self.promo_price@,
            regular_price: self.regular_price@,
            discount: self.discount,
            tag_top_line: self.tag_top_line@,
            tag_bottom_line: self.tag_bottom_line@,
            promo_details: self.promo_details@,
            price_per_unit: self.price_per_unit@,
            limits: self.limits@,
            regular_price_per_unit: self.regular_price_per_unit@,
            product_url: self.product_url@,
            thumb_url: self.thumb_url@,
            image_url: self.image_url@,
            full_screen_image_url: self.full_screen_image_url@,
        }
    }
}

/// The first of three texts that is not empty.
pub open spec fn first_filled(a: Seq<char>, b: Seq<char>, c: Seq<char>) -> Option<Seq<char>> {
    if a.len() > 0 {
        Some(a)
    } else if b.len() > 0 {
        Some(b)
    } else if c.len() > 0 {
        Some(c)
    } else {
        None
    }
}

/// The details of an offer: description and promotion details on one
/// line, the two tag lines on the next.
pub open spec fn details_text(element: ElementView) -> Seq<char> {
    element.description + ";"@ + element.promo_details + "\n"@ + element.tag_top_line + ";"@
        + element.tag_bottom_line
}

/// The offer that a listed element is shown as. Its picture is the
/// largest there is: full screen, else the image, else the thumbnail.
pub open spec fn offer_of(element: ElementView) -> OfferView {
    OfferView {
        id: element.offer_id_ext,
        name: element.name,
        details: details_text(element),
        limit: element.limits,
        image: first_filled(element.full_screen_image_url, element.image_url, element.thumb_url),
        human_time: element.promotion_time,
        regular_price: element.regular_price,
        regular_price_unit: element.regular_price_per_unit,
        offer_price: element.promo_price,
        offer_price_unit: element.price_per_unit,
        discount_percent: element.discount,
    }
}

impl OfferElement {
    /// Turns the listed element into the offer that is shown.
    pub fn into_offer(self) -> (offer: Offer)
        ensures
            offer@ == offer_of(self@),
    {
        let mut details: String = self.description;
        details.append(";");
        details.append(self.promo_details.as_str());
        details.append("\n");
        details.append(self.tag_top_line.as_str());
        details.append(";");
        details.append(self.tag_bottom_line.as_str());
        let image: Option<String> = if !self.full_screen_image_url.as_str().is_empty() {
            Some(self.full_screen_image_url)
        } else if !self.image_url.as_str().is_empty() {
            Some(self.image_url)
        } else if !self.thumb_url.as_str().is_empty() {
            Some(self.thumb_url)
        } else {
            None
        };
        Offer {
            id: self.offer_id_ext,
            name: self.name,
            details,
            limit: self.limits,
            image,
            human_time: self.promotion_time,
            regular_price: self.regular_price,
            regular_price_unit: self.regular_price_per_unit,
            offer_price: self.promo_price,
            offer_price_unit: self.price_per_unit,
            discount_percent: self.discount,
        }
    }
}

/// The offers of a list, each as what it stands for.
pub open spec fn offers_view(list: Seq<Offer>) -> Seq<OfferView> {
    list.map_values(|o: Offer| o@)
}

/// The elements of a list, each as what it stands for.
pub open spec fn elements_view(list: Seq<OfferElement>) -> Seq<ElementView> {
    list.map_values(|e: OfferElement| e@)
}

/// The offers that are shown of those that the backend lists: the ones
/// that have a name, in the order of the list.
pub open spec fn shown_offers(elements: Seq<ElementView>) -> Seq<OfferView> {
    elements.filter(|e: ElementView| e.name.len() > 0).map_values(|e: ElementView| offer_of(e))
}

/// Turns the backend's list into the offers that are shown.
pub fn visible_offers(elements: Vec<OfferElement>) -> (offers: Vec<Offer>)
    ensures
        offers_view(offers@) == shown_offers(elements_view(elements@)),
{
    let ghost all = elements_view(elements@);
    let ghost named = |e: ElementView| e.name.len() > 0;
    let mut offers: Vec<Offer> = Vec::new();
    proof {
        reveal(Seq::filter);
        assert(all.take(0) =~= Seq::<ElementView>::empty());
        assert(offers_view(offers@) =~= shown_offers(all.take(0)));
    }
    for element in it: elements
        invariant
            all == elements_view(elements@),
            it.seq() == elements@,
            offers_view(offers@) == shown_offers(all.take(it.index() as int)),
    {
        proof {
            reveal(Seq::filter);
            let i = it.index() as int;
            assert(all.take(i + 1).drop_last() =~= all.take(i));
            assert(all.take(i + 1).last() == element@);
        }
        if !element.name.as_str().is_empty() {
            let ghost before = offers@;
            let offer: Offer = element.into_offer();
            offers.push(offer);
            assert(offers_view(offers@) =~= offers_view(before).push(offer@));
            assert(shown_offers(all.take(it.index() as int + 1)) =~= shown_offers(
                all.take(it.index() as int),
            ).push(offer_of(element@)));
        }
    }
    assert(all.take(elements@.len() as int) =~= all);
    offers
}

} // verus!
