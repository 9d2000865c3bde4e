//! Events: what they carry, how they are composed, and the request that
//! delivers one.

use vstd::prelude::*;
use vstd::string::*;
use crate::experiments::ExperimentCtx;
use crate::props::{distinct_keys, lemma_merge_in_steps, merge, Entries, Props};
use crate::value::{PropModel, PropValue};
use crate::wire::{
    decimal, fields_model, flatten, number_parts, object, object_parts, quoted, scalar_parts,
    scalar_tokens, string_parts, text, BodyPart, Fields, Token,
};

verus! {

/// What the page supplies when an event is composed: the browser's user
/// agent, the address of the page, the address the visitor came from (empty
/// when there is none), and the experiment the event occurs under.
#[derive(Debug)]
pub struct PageContext {
    pub user_agent: String,
    pub href: String,
    pub referrer: String,
    pub experiment: Option<ExperimentCtx>,
}

/// What identifies the sender of an event.
#[derive(Debug)]
pub struct PlausibleHeader {
    pub user_agent: String,
    pub x_forwarded_for: String,
}

/// What a [`PlausibleHeader`] stands for.
pub struct HeaderModel {
    pub user_agent: Seq<char>,
    pub x_forwarded_for: Seq<char>,
}

impl View for PlausibleHeader {
    type V = HeaderModel;

    open spec fn view(&self) -> HeaderModel {
        HeaderModel { user_agent: self.user_agent@, x_forwarded_for: self.x_forwarded_for@ }
    }
}

impl PlausibleHeader {
    /// The header with these two values.
    #[must_use]
    pub fn new(user_agent: String, x_forwarded_for: String) -> (header: PlausibleHeader)
        ensures
            header.user_agent == user_agent,
            header.x_forwarded_for == x_forwarded_for,
    {
        PlausibleHeader { user_agent, x_forwarded_for }
    }
}

/// Revenue attached to an event: a currency code and an amount, both as
/// text. The collector decides what it does with them.
#[derive(Debug)]
pub struct RevenueValue {
    currency: String,
    amount: String,
}

/// What a [`RevenueValue`] stands for.
pub struct RevenueModel {
    pub currency: Seq<char>,
    pub amount: Seq<char>,
}

impl View for RevenueValue {
    type V = RevenueModel;

    closed spec fn view(&self) -> RevenueModel {
        RevenueModel { currency: self.currency@, amount: self.amount@ }
    }
}

impl RevenueValue {
    /// The amount `amount` in the currency `currency`.
    pub fn new(currency: &str, amount: &str) -> (revenue: RevenueValue)
        ensures
            revenue@ == (RevenueModel { currency: currency@, amount: amount@ }),
    {
        RevenueValue { currency: currency.to_owned(), amount: amount.to_owned() }
    }

    /// The currency code.
    pub fn currency(&self) -> (currency: &String)
        ensures
            currency@ == self@.currency,
    {
        &self.currency
    }

    /// The amount, as it was given.
    pub fn amount(&self) -> (amount: &String)
        ensures
            amount@ == self@.amount,
    {
        &self.amount
    }
}

/// The name of an event: one of the names the collector knows, or any other.
#[derive(Debug)]
pub enum EventName {
    Pageview,
    OutboundLinkClick,
    FileDownload,
    Purchase,
    NotFound,
    Custom(String),
}

impl EventName {
    /// The name as it is sent.
    pub open spec fn text(self) -> Seq<char> {
        match self {
            EventName::Pageview => "pageview"@,
            EventName::OutboundLinkClick => "Outbound Link: Click"@,
            EventName::FileDownload => "File Download"@,
            EventName::Purchase => "Purchase"@,
            EventName::NotFound => "404"@,
            EventName::Custom(s) => s@,
        }
    }

    /// The name as it is sent.
    pub fn into(self) -> (name: String)
        ensures
            name@ == self.text(),
    {
        match self {
            EventName::Pageview => "pageview".to_owned(),
            EventName::OutboundLinkClick => "Outbound Link: Click".to_owned(),
            EventName::FileDownload => "File Download".to_owned(),
            EventName::Purchase => "Purchase".to_owned(),
            EventName::NotFound => "404".to_owned(),
            EventName::Custom(s) => s,
        }
    }
}

/// What one event says.
#[derive(Debug)]
pub struct PlausiblePayload {
    /// Name of the event.
    pub name: String,
    /// The site the event belongs to.
    pub domain: String,
    /// Address of the page where the event occurred.
    pub url: String,
    pub referrer: Option<String>,
    pub screen_width: Option<usize>,
    pub props: Option<Props>,
    pub revenue: Option<RevenueValue>,
}

/// What a [`PlausiblePayload`] stands for.
pub struct PayloadModel {
    pub name: Seq<char>,
    pub domain: Seq<char>,
    pub url: Seq<char>,
    pub referrer: Option<Seq<char>>,
    pub screen_width: Option<usize>,
    pub props: Option<Entries>,
    pub revenue: Option<RevenueModel>,
}

impl View for PlausiblePayload {
    type V = PayloadModel;

    open spec fn view(&self) -> PayloadModel {
        PayloadModel {
            name: self.name@,
            domain: self.domain@,
            url: self.url@,
            referrer: match self.referrer {
                Some(r) => Some(r@),
                None => None,
            },
            screen_width: self.screen_width,
            props: match self.props {
                Some(p) => Some(p@),
                None => None,
            },
            revenue: match self.revenue {
                Some(r) => Some(r@),
                None => None,
            },
        }
    }
}

/// The fields of the object that carries the properties, one for each
/// property and in their order.
pub open spec fn props_fields(entries: Entries) -> Fields {
    Seq::new(entries.len(), |i: int| (entries[i].0, scalar_tokens(entries[i].1)))
}

impl PayloadModel {
    /// The payload with `props` written into its properties.
    pub open spec fn with_props(self, props: Entries) -> PayloadModel {
        PayloadModel {
            props: Some(
                match self.props {
                    Some(existing) => merge(existing, props),
                    None => props,
                },
            ),
            ..self
        }
    }

    /// A referrer is sent when there is one and it is not empty.
    pub open spec fn sends_referrer(self) -> bool {
        self.referrer matches Some(r) && r.len() > 0
    }

    /// Properties are sent when there is at least one.
    pub open spec fn sends_props(self) -> bool {
        self.props matches Some(p) && p.len() > 0
    }

    /// The fields of the body, in their order: `name`, `domain` and `url`
    /// always, each of the others only when it has something to say.
    pub open spec fn wire_fields(self) -> Fields {
        seq![
            ("name"@, text(quoted(self.name))),
            ("domain"@, text(quoted(self.domain))),
            ("url"@, text(quoted(self.url))),
        ] + (if self.sends_referrer() {
            seq![("referrer"@, text(quoted(self.referrer.unwrap())))]
        } else {
            Seq::empty()
        }) + (match self.screen_width {
            Some(width) => seq![("screen_width"@, text(decimal(width as int)))],
            None => Seq::empty(),
        }) + (if self.sends_props() {
            seq![("props"@, object(props_fields(self.props.unwrap())))]
        } else {
            Seq::empty()
        }) + (match self.revenue {
            Some(revenue) => seq![
                (
                    "revenue"@,
                    object(
                        seq![
                            ("currency"@, text(quoted(revenue.currency))),
                            ("amount"@, text(quoted(revenue.amount))),
                        ],
                    ),
                ),
            ],
            None => Seq::empty(),
        })
    }

    /// The body: a JSON object of the fields.
    pub open spec fn wire_body(self) -> Seq<Token> {
        object(self.wire_fields())
    }
}

/// True when `fields` holds a field named `key`.
pub open spec fn has_field(fields: Fields, key: Seq<char>) -> bool {
    exists|i: int| 0 <= i < fields.len() && (#[trigger] fields[i]).0 == key
}

/// Which fields a body holds: `name`, `domain` and `url` always; `referrer`
/// only for a referrer that is not empty; `props` only for at least one
/// property; `screen_width` and `revenue` only when they were set. A field
/// that has nothing to say is left out, not sent as `null`.
pub proof fn lemma_fields_present(payload: PayloadModel)
    ensures
        has_field(payload.wire_fields(), "name"@),
        has_field(payload.wire_fields(), "domain"@),
        has_field(payload.wire_fields(), "url"@),
        has_field(payload.wire_fields(), "referrer"@) <==> payload.sends_referrer(),
        has_field(payload.wire_fields(), "screen_width"@) <==> payload.screen_width is Some,
        has_field(payload.wire_fields(), "props"@) <==> payload.sends_props(),
        has_field(payload.wire_fields(), "revenue"@) <==> payload.revenue is Some,
        !payload.sends_referrer() && payload.screen_width is None && !payload.sends_props()
            && payload.revenue is None ==> payload.wire_fields().len() == 3,
{
    reveal_strlit("name");
    reveal_strlit("domain");
    reveal_strlit("url");
    reveal_strlit("referrer");
    reveal_strlit("screen_width");
    reveal_strlit("props");
    reveal_strlit("revenue");
    let fields = payload.wire_fields();
    let referrer: int = if payload.sends_referrer() { 1 } else { 0 };
    let width: int = if payload.screen_width is Some { 1 } else { 0 };
    let props: int = if payload.sends_props() { 1 } else { 0 };
    let revenue: int = if payload.revenue is Some { 1 } else { 0 };
    assert(fields.len() == 3 + referrer + width + props + revenue);
    assert(fields[0].0 == "name"@);
    assert(fields[1].0 == "domain"@);
    assert(fields[2].0 == "url"@);
    if payload.sends_referrer() {
        assert(fields[3].0 == "referrer"@);
    }
    if payload.screen_width is Some {
        assert(fields[3 + referrer].0 == "screen_width"@);
    }
    if payload.sends_props() {
        assert(fields[3 + referrer + width].0 == "props"@);
    }
    if payload.revenue is Some {
        assert(fields[3 + referrer + width + props].0 == "revenue"@);
    }
    assert forall|i: int| 0 <= i < fields.len() implies (#[trigger] fields[i]).0.len() == (if i
        == 0 {
        4nat
    } else if i == 1 {
        6nat
    } else if i == 2 {
        3nat
    } else if i == 3 && payload.sends_referrer() {
        8nat
    } else if i == 3 + referrer && payload.screen_width is Some {
        12nat
    } else if i == 3 + referrer + width && payload.sends_props() {
        5nat
    } else {
        7nat
    }) by {}
}

/// Adding properties in two steps gives the payload of one step with the two
/// lists merged, and so the same body.
pub proof fn lemma_props_twice(payload: PayloadModel, first: Entries, second: Entries)
    requires
        payload.props matches Some(p) ==> distinct_keys(p),
        distinct_keys(first),
    ensures
        payload.with_props(first).with_props(second) == payload.with_props(merge(first, second)),
{
    match payload.props {
        Some(p) => {
            lemma_merge_in_steps(p, first, second);
        },
        None => {},
    }
}

/// Adds the field `key` with the value `value` at the end of `fields`.
fn add_field(fields: &mut Vec<(String, Vec<BodyPart>)>, key: &str, value: Vec<BodyPart>)
    ensures
        fields_model(final(fields)@) == fields_model(old(fields)@).push((key@, flatten(value@))),
{
    fields.push((key.to_owned(), value));
    assert(fields_model(fields@) =~= fields_model(old(fields)@).push((key@, flatten(value@))));
}

/// The object that carries the properties.
fn props_parts(props: &Props) -> (parts: Vec<BodyPart>)
    ensures
        flatten(parts@) == object(props_fields(props@)),
{
    let mut fields: Vec<(String, Vec<BodyPart>)> = Vec::new();
    let mut i: usize = 0;
    assert(fields_model(fields@) =~= props_fields(props@).take(0));
    while i < props.len()
        invariant
            i <= props@.len(),
            fields_model(fields@) == props_fields(props@).take(i as int),
        decreases props@.len() - i,
    {
        let value = scalar_parts(props.value_at(i));
        add_field(&mut fields, props.key_at(i).as_str(), value);
        assert(fields_model(fields@) =~= props_fields(props@).take(i as int + 1));
        i += 1;
    }
    assert(props_fields(props@).take(i as int) =~= props_fields(props@));
    object_parts(&fields)
}

impl PlausiblePayload {
    /// The body of the request that delivers this payload.
    pub fn body(&self) -> (parts: Vec<BodyPart>)
        ensures
            flatten(parts@) == self@.wire_body(),
    {
        let mut fields: Vec<(String, Vec<BodyPart>)> = Vec::new();
        assert(fields_model(fields@) =~= Seq::empty());
        add_field(&mut fields, "name", string_parts(self.name.as_str()));
        add_field(&mut fields, "domain", string_parts(self.domain.as_str()));
        add_field(&mut fields, "url", string_parts(self.url.as_str()));
        match &self.referrer {
            Some(referrer) => {
                if referrer.as_str().unicode_len() > 0 {
                    add_field(&mut fields, "referrer", string_parts(referrer.as_str()));
                }
            },
            None => {},
        }
        match self.screen_width {
            Some(width) => {
                add_field(&mut fields, "screen_width", number_parts(width));
            },
            None => {},
        }
        match &self.props {
            Some(props) => {
                if props.len() > 0 {
                    add_field(&mut fields, "props", props_parts(props));
                }
            },
            None => {},
        }
        match &self.revenue {
            Some(revenue) => {
                let mut inner: Vec<(String, Vec<BodyPart>)> = Vec::new();
                add_field(&mut inner, "currency", string_parts(revenue.currency().as_str()));
                add_field(&mut inner, "amount", string_parts(revenue.amount().as_str()));
                assert(fields_model(inner@) =~= seq![
                    ("currency"@, text(quoted(revenue@.currency))),
                    ("amount"@, text(quoted(revenue@.amount))),
                ]);
                add_field(&mut fields, "revenue", object_parts(&inner));
            },
            None => {},
        }
        assert(fields_model(fields@) =~= self@.wire_fields());
        object_parts(&fields)
    }
}

/// What an [`EventBuilder`] stands for.
pub struct EventModel {
    /// Where the collector is.
    pub plausible_url: Seq<char>,
    pub header: HeaderModel,
    pub body: PayloadModel,
}

/// One event in the making. Each setter writes its field; written twice, the
/// later value stays.
#[derive(Debug)]
pub struct EventBuilder {
    plausible_url: String,
    header: PlausibleHeader,
    body: PlausiblePayload,
}

impl View for EventBuilder {
    type V = EventModel;

    closed spec fn view(&self) -> EventModel {
        EventModel { plausible_url: self.plausible_url@, header: self.header@, body: self.body@ }
    }
}

/// A request to the collector. It is a `POST` that carries no credentials and
/// whose response is not read.
#[derive(Debug)]
pub struct OutboundRequest {
    pub method: String,
    pub url: String,
    /// Header names with their values.
    pub headers: Vec<(String, String)>,
    /// True: the request is made without cross-origin negotiation and its
    /// response stays opaque.
    pub no_cors: bool,
    /// False: no cookies or other credentials go with the request.
    pub with_credentials: bool,
    pub body: Vec<BodyPart>,
}

impl EventBuilder {
    /// An event with the given header and payload, for the collector at
    /// `plausible_url`.
    pub fn create(plausible_url: String, header: PlausibleHeader, body: PlausiblePayload) -> (event:
        EventBuilder)
        ensures
            event@ == (EventModel { plausible_url: plausible_url@, header: header@, body: body@ }),
    {
        EventBuilder { plausible_url, header, body }
    }

    /// What the event says so far.
    pub fn payload(&self) -> (body: &PlausiblePayload)
        ensures
            body@ == self@.body,
    {
        &self.body
    }

    /// Who sends the event.
    pub fn header(&self) -> (header: &PlausibleHeader)
        ensures
            header@ == self@.header,
    {
        &self.header
    }

    /// Adds new properties, overwriting where the key exists already.
    pub fn props(self, props: Props) -> (event: EventBuilder)
        ensures
            event@ == (EventModel { body: self@.body.with_props(props@), ..self@ }),
    {
        let EventBuilder { plausible_url, header, body } = self;
        let PlausiblePayload { name, domain, url, referrer, screen_width, props: existing, revenue } =
            body;
        let merged = match existing {
            None => props,
            Some(existing) => existing.merged(props),
        };
        EventBuilder {
            plausible_url,
            header,
            body: PlausiblePayload {
                name,
                domain,
                url,
                referrer,
                screen_width,
                props: Some(merged),
                revenue,
            },
        }
    }

    /// Adds one property, overwriting it if the key exists already.
    pub fn prop(self, name: &str, value: PropValue) -> (event: EventBuilder)
        ensures
            event@ == (EventModel { body: self@.body.with_props(seq![(name@, value@)]), ..self@ }),
    {
        let one = Props::new().with(name.to_owned(), value);
        assert(one@ =~= seq![(name@, value@)]);
        self.props(one)
    }

    /// Sets the revenue of the event.
    pub fn revenue(self, revenue: RevenueValue) -> (event: EventBuilder)
        ensures
            event@ == (EventModel {
                body: PayloadModel { revenue: Some(revenue@), ..self@.body },
                ..self@
            }),
    {
        let mut event = self;
        event.body.revenue = Some(revenue);
        event
    }

    /// Sets the referrer of the event.
    pub fn referrer(self, referrer: String) -> (event: EventBuilder)
        ensures
            event@ == (EventModel {
                body: PayloadModel { referrer: Some(referrer@), ..self@.body },
                ..self@
            }),
    {
        let mut event = self;
        event.body.referrer = Some(referrer);
        event
    }

    /// Sets the width of the visitor's screen.
    pub fn screen_width(self, screen_width: usize) -> (event: EventBuilder)
        ensures
            event@ == (EventModel {
                body: PayloadModel { screen_width: Some(screen_width), ..self@.body },
                ..self@
            }),
    {
        let mut event = self;
        event.body.screen_width = Some(screen_width);
        event
    }

    /// Adds the properties of the experiment that surrounds the event, where
    /// there is one; without one the event stays as it is.
    pub fn experiments(self, props: Option<Props>) -> (event: EventBuilder)
        ensures
            event@ == (match props {
                Some(p) => EventModel { body: self@.body.with_props(p@), ..self@ },
                None => self@,
            }),
    {
        match props {
            Some(p) => self.props(p),
            None => self,
        }
    }

    /// Adds what `experiment` records of itself, where there is one: nothing
    /// while it is pending, else its entry.
    pub fn set_experiment(self, experiment: Option<ExperimentCtx>) -> (event: EventBuilder)
        ensures
            event@ == (match experiment {
                Some(e) => EventModel { body: self@.body.with_props(e.0@.properties()), ..self@ },
                None => self@,
            }),
    {
        match experiment {
            Some(e) => self.props(e.to_plausible()),
            None => self,
        }
    }

    /// Replaces the address of the page by `url` followed by `search`, the
    /// query string of the page. Use it where the address itself holds what
    /// must not be sent.
    pub fn url(&mut self, url: &str, search: &str) -> (event: &mut EventBuilder)
        ensures
            event@ == (EventModel {
                body: PayloadModel { url: url@ + search@, ..old(self)@.body },
                ..old(self)@
            }),
            *final(self) == *final(event),
    {
        let mut with_params = url.to_owned();
        with_params.append(search);
        self.body.url = with_params;
        self
    }

    /// The request that delivers the event: a `POST` to `/api/event` at the
    /// collector, with the payload as its JSON body.
    pub fn request(&self) -> (request: OutboundRequest)
        ensures
            request.method@ == "POST"@,
            request.url@ == self@.plausible_url + "/api/event"@,
            request.headers@.len() == 2,
            request.headers@[0].0@ == "Cache-Control"@,
            request.headers@[0].1@ == "no-cache"@,
            request.headers@[1].0@ == "Content-Type"@,
            request.headers@[1].1@ == "application/json"@,
            request.no_cors,
            !request.with_credentials,
            flatten(request.body@) == self@.body.wire_body(),
    {
        let mut url = self.plausible_url.clone();
        url.append("/api/event");
        let mut headers: Vec<(String, String)> = Vec::new();
        headers.push(("Cache-Control".to_owned(), "no-cache".to_owned()));
        headers.push(("Content-Type".to_owned(), "application/json".to_owned()));
        OutboundRequest {
            method: "POST".to_owned(),
            url,
            headers,
            no_cors: true,
            with_credentials: false,
            body: self.body.body(),
        }
    }
}

/// A site and the collector that its events go to.
#[derive(Debug)]
pub struct Plausible {
    /// The name under which the site is registered at the collector.
    domain: String,
    /// Where the collector is.
    plausible_url: String,
}

/// What a [`Plausible`] stands for.
pub struct PlausibleModel {
    pub domain: Seq<char>,
    pub plausible_url: Seq<char>,
}

impl View for Plausible {
    type V = PlausibleModel;

    closed spec fn view(&self) -> PlausibleModel {
        PlausibleModel { domain: self.domain@, plausible_url: self.plausible_url@ }
    }
}

impl Clone for Plausible {
    fn clone(&self) -> (copy: Plausible)
        ensures
            copy@ == self@,
    {
        Plausible { domain: self.domain.clone(), plausible_url: self.plausible_url.clone() }
    }
}

impl PlausibleModel {
    /// The event `name` as it starts out on `page`.
    pub open spec fn initial_event(self, name: Seq<char>, page: PageContext) -> EventModel {
        let stub = PayloadModel {
            name,
            domain: self.domain,
            url: page.href@,
            referrer: if page.referrer@.len() == 0 {
                None
            } else {
                Some(page.referrer@)
            },
            screen_width: None,
            props: None,
            revenue: None,
        };
        EventModel {
            plausible_url: self.plausible_url,
            header: HeaderModel { user_agent: page.user_agent@, x_forwarded_for: page.href@ },
            body: match page.experiment {
                Some(e) => stub.with_props(e.0@.properties()),
                None => stub,
            },
        }
    }
}

impl Plausible {
    /// The site `domain`, with the public collector.
    #[must_use]
    pub fn new(domain: &str) -> (site: Plausible)
        ensures
            site@ == (PlausibleModel { domain: domain@, plausible_url: "https://plausible.io"@ }),
    {
        Plausible { domain: domain.to_owned(), plausible_url: "https://plausible.io".to_owned() }
    }

    /// The site `domain`, with a collector of its own at `instance_url`.
    #[must_use]
    pub fn new_private(domain: &str, instance_url: &str) -> (site: Plausible)
        ensures
            site@ == (PlausibleModel { domain: domain@, plausible_url: instance_url@ }),
    {
        Plausible { domain: domain.to_owned(), plausible_url: instance_url.to_owned() }
    }

    /// Starts an event: the header and the payload as the page gives them,
    /// the referrer only if it is not empty, and the properties of the
    /// experiment on the page.
    fn build_event(&self, name: EventName, page: &PageContext) -> (event: EventBuilder)
        ensures
            event@ == self@.initial_event(name.text(), *page),
    {
        let header = PlausibleHeader::new(page.user_agent.clone(), page.href.clone());
        let referrer = if page.referrer.as_str().unicode_len() == 0 {
            None
        } else {
            Some(page.referrer.clone())
        };
        let body = PlausiblePayload {
            name: name.into(),
            domain: self.domain.clone(),
            url: page.href.clone(),
            referrer,
            props: None,
            revenue: None,
            screen_width: None,
        };
        let event = EventBuilder::create(self.plausible_url.clone(), header, body);
        match &page.experiment {
            Some(e) => event.props(e.to_plausible()),
            None => event,
        }
    }

    /// The event of a click on a link that leaves the site, with the address
    /// of the link as the property `url`.
    #[must_use]
    pub fn link_click(&self, page: &PageContext, outbound_url: &str) -> (event: EventBuilder)
        ensures
            event@ == ({
                let start = self@.initial_event(EventName::OutboundLinkClick.text(), *page);
                EventModel {
                    body: start.body.with_props(seq![("url"@, PropModel::Text(outbound_url@))]),
                    ..start
                }
            }),
    {
        self.build_event(EventName::OutboundLinkClick, page).prop(
            "url",
            PropValue::String(outbound_url.to_owned()),
        )
    }

    /// The event of a page view.
    #[must_use]
    pub fn pageview(&self, page: &PageContext) -> (event: EventBuilder)
        ensures
            event@ == self@.initial_event(EventName::Pageview.text(), *page),
    {
        self.build_event(EventName::Pageview, page)
    }

    /// An event with a name of the caller's choice.
    #[must_use]
    pub fn event(&self, page: &PageContext, name: &str) -> (event: EventBuilder)
        ensures
            event@ == self@.initial_event(name@, *page),
    {
        self.build_event(EventName::Custom(name.to_owned()), page)
    }
}

} // verus!
