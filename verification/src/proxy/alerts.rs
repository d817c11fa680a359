//! Alerts that are forwarded over Signal.
use vstd::prelude::*;
use vstd::string::*;
use vstd::utf8::*;

use crate::codec::{percent_decoded, url_decode};
use crate::text::{opt_str, opt_str_view, opt_view, same, starts_with};

verus! {

/// An alert.
#[derive(Debug)]
pub struct WebhookAlertRequest {
    pub title: String,
    pub body: Option<String>,
    pub severity: Option<String>,
    pub source: Option<String>,
    pub url: Option<String>,
}

/// A [`WebhookAlertRequest`] with its texts as character sequences.
pub struct AlertView {
    pub title: Seq<char>,
    pub body: Option<Seq<char>>,
    pub severity: Option<Seq<char>>,
    pub source: Option<Seq<char>>,
    pub url: Option<Seq<char>>,
}

impl View for WebhookAlertRequest {
    type V = AlertView;

    open spec fn view(&self) -> AlertView {
        AlertView {
            title: self.title@,
            body: opt_view(self.body),
            severity: opt_view(self.severity),
            source: opt_view(self.source),
            url: opt_view(self.url),
        }
    }
}

/// The answer to an alert.
#[derive(Debug)]
pub struct WebhookAlertResponse {
    pub status: String,
    pub message: String,
}

/// An alert as Grafana sends it.
#[derive(Debug)]
pub struct GrafanaWebhookPayload {
    pub rule_name: Option<String>,
    pub title: Option<String>,
    pub message: Option<String>,
    pub state: Option<String>,
    pub rule_url: Option<String>,
}

/// The sign of a severity.
pub open spec fn icon(severity: Seq<char>) -> Seq<char> {
    if severity == "critical"@ || severity == "error"@ {
        "🔴"@
    } else if severity == "warning"@ || severity == "warn"@ {
        "🟡"@
    } else if severity == "ok"@ || severity == "resolved"@ {
        "🟢"@
    } else {
        "🔵"@
    }
}

/// A paragraph of its own, where there is a text and it is not empty.
pub open spec fn paragraph(text: Option<Seq<char>>) -> Seq<char> {
    match text {
        Some(t) if t.len() > 0 => "\n\n"@ + t,
        _ => Seq::empty(),
    }
}

/// An alert as it is sent.
pub open spec fn alert_text(alert: AlertView) -> Seq<char> {
    let head = icon(alert.severity.unwrap_or("info"@)) + " **"@ + alert.title + "**"@;
    let from = match alert.source {
        Some(source) => head + " ("@ + source + ")"@,
        None => head,
    };
    from + paragraph(alert.body) + paragraph(alert.url)
}

fn add_paragraph(message: &mut String, text: Option<&str>)
    ensures
        final(message)@ == old(message)@ + paragraph(opt_str_view(text)),
{
    let ghost before = message@;
    if let Some(t) = text {
        if t.unicode_len() > 0 {
            let mut p = "\n\n".to_owned();
            p.append(t);
            message.append(p.as_str());
            return;
        }
    }
    assert(before + Seq::empty() =~= before);
}

/// An alert as it is sent.
pub fn format_alert(
    title: &str,
    body: Option<&str>,
    severity: Option<&str>,
    source: Option<&str>,
    url: Option<&str>,
) -> (r: String)
    ensures
        r@ == alert_text(
            (AlertView {
                title: title@,
                body: opt_str_view(body),
                severity: opt_str_view(severity),
                source: opt_str_view(source),
                url: opt_str_view(url),
            }),
        ),
{
    let severity = match severity {
        Some(s) => s,
        None => "info",
    };
    let mut m = (if same(severity, "critical") || same(severity, "error") {
        "🔴"
    } else if same(severity, "warning") || same(severity, "warn") {
        "🟡"
    } else if same(severity, "ok") || same(severity, "resolved") {
        "🟢"
    } else {
        "🔵"
    }).to_owned();
    m.append(" **");
    m.append(title);
    m.append("**");
    if let Some(source) = source {
        m.append(" (");
        m.append(source);
        m.append(")");
    }
    add_paragraph(&mut m, body);
    add_paragraph(&mut m, url);
    m
}

/// The text of an alert.
pub fn alert_message(request: &WebhookAlertRequest) -> (r: String)
    ensures
        r@ == alert_text(request@),
{
    format_alert(
        request.title.as_str(),
        opt_str(&request.body),
        opt_str(&request.severity),
        opt_str(&request.source),
        opt_str(&request.url),
    )
}

/// The severity that a state of Grafana's stands for.
pub open spec fn grafana_severity(state: Seq<char>) -> Seq<char> {
    if state == "alerting"@ {
        "critical"@
    } else if state == "ok"@ || state == "resolved"@ {
        "ok"@
    } else if state == "pending"@ {
        "warning"@
    } else {
        "info"@
    }
}

/// The alert that Grafana sends.
pub open spec fn grafana_alert(payload: GrafanaWebhookPayload) -> AlertView {
    AlertView {
        title: match payload.rule_name {
            Some(name) => name@,
            None => match payload.title {
                Some(title) => title@,
                None => "Grafana Alert"@,
            },
        },
        body: opt_view(payload.message),
        severity: match payload.state {
            Some(state) => Some(grafana_severity(state@)),
            None => None,
        },
        source: Some("Grafana"@),
        url: opt_view(payload.rule_url),
    }
}

/// The alert that Grafana sends.
pub fn webhook_grafana(payload: GrafanaWebhookPayload) -> (r: WebhookAlertRequest)
    ensures
        r@ == grafana_alert(payload),
{
    let title = match payload.rule_name {
        Some(name) => name,
        None => match payload.title {
            Some(title) => title,
            None => "Grafana Alert".to_owned(),
        },
    };
    let severity = match payload.state {
        Some(state) => Some(
            (if same(state.as_str(), "alerting") {
                "critical"
            } else if same(state.as_str(), "ok") || same(state.as_str(), "resolved") {
                "ok"
            } else if same(state.as_str(), "pending") {
                "warning"
            } else {
                "info"
            }).to_owned(),
        ),
        None => None,
    };
    WebhookAlertRequest {
        title,
        body: payload.message,
        severity,
        source: Some("Grafana".to_owned()),
        url: payload.rule_url,
    }
}

/// The recipient looks like a phone number.
pub open spec fn looks_like_number(recipient: Seq<char>) -> bool {
    "+"@.is_prefix_of(recipient) || "%2B"@.is_prefix_of(recipient)
}

/// The text of a percent-encoded recipient, where it is one.
pub open spec fn recipient_text(recipient: Seq<char>) -> Seq<char> {
    let bytes = percent_decoded(encode_utf8(recipient));
    if valid_utf8(bytes) {
        decode_utf8(bytes)
    } else {
        recipient
    }
}

/// What a recipient stands for: a group, or a number that is to be brought into its normal form.
pub enum Recipient {
    Group(String),
    Number(String),
}

/// `r` is what the text of a recipient stands for.
pub open spec fn stands_for(r: Recipient, recipient: Seq<char>) -> bool {
    match r {
        Recipient::Group(id) => !looks_like_number(recipient) && id@ == recipient,
        Recipient::Number(text) => looks_like_number(recipient) && text@ == recipient_text(
            recipient,
        ),
    }
}

/// Whom an alert goes to: a group, or the normal form of a number, or the number as it is where it
/// has none.
pub open spec fn target_of(recipient: Recipient, normalized: Option<Seq<char>>) -> Seq<char> {
    match recipient {
        Recipient::Group(id) => id@,
        Recipient::Number(text) => match normalized {
            Some(number) => number,
            None => text@,
        },
    }
}

/// What a recipient stands for.
pub fn recipient_of(recipient: &str) -> (r: Recipient)
    ensures
        stands_for(r, recipient@),
{
    if starts_with(recipient, "+") || starts_with(recipient, "%2B") {
        match url_decode(recipient) {
            Ok(text) => {
                proof {
                    encode_utf8_decode_utf8(text@);
                }
                Recipient::Number(text)
            },
            Err(_) => Recipient::Number(recipient.to_owned()),
        }
    } else {
        Recipient::Group(recipient.to_owned())
    }
}

/// Whom an alert goes to: a group, or the normal form of a number, or the number as it is where it
/// has none. `normalized` is the normal form of the number, where the recipient is one.
pub fn alert_target(recipient: Recipient, normalized: Option<String>) -> (r: String)
    ensures
        r@ == target_of(recipient, opt_view(normalized)),
{
    match recipient {
        Recipient::Group(id) => id,
        Recipient::Number(text) => match normalized {
            Some(number) => number,
            None => text,
        },
    }
}

/// The answer to an alert that was sent to its owner.
pub fn alert_sent() -> (r: WebhookAlertResponse)
    ensures
        r.status@ == "sent"@,
        r.message@ == "Alert delivered via Signal"@,
{
    WebhookAlertResponse {
        status: "sent".to_owned(),
        message: "Alert delivered via Signal".to_owned(),
    }
}

/// The answer to an alert that was sent to a recipient.
pub fn alert_sent_to(target: &str) -> (r: WebhookAlertResponse)
    ensures
        r.status@ == "sent"@,
        r.message@ == "Alert delivered to "@ + target@,
{
    let mut message = "Alert delivered to ".to_owned();
    message.append(target);
    WebhookAlertResponse { status: "sent".to_owned(), message }
}

/// An alert is seen with all that it holds.
pub proof fn law_alerts_are_seen_whole(alert: WebhookAlertRequest)
    ensures
        alert@.title == alert.title@,
        alert@.body == opt_view(alert.body),
        alert@.severity == opt_view(alert.severity),
        alert@.source == opt_view(alert.source),
        alert@.url == opt_view(alert.url),
{
}

} // verus!
