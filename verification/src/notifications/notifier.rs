use vstd::prelude::*;

verus! {

/// A desktop notification: a title and a body.
#[derive(Debug, Clone)]
pub struct Notification {
    pub title: String,
    pub body: String,
}

pub open spec fn hard_pause_body(label: Seq<char>, time_to_return: Seq<char>) -> Seq<char> {
    "Pausa para: "@ + label + ", retorno em: "@ + time_to_return
}

pub open spec fn soft_pause_body(label: Seq<char>, time_to_return: Seq<char>) -> Seq<char> {
    "Pausa leve: "@ + label + ", retorno em: "@ + time_to_return
}

/// The notice of a mandatory pause.
pub fn notify_hard_pause(label: &str, time_to_return: &str) -> (n: Notification)
    ensures
        n.title@ == "Pausa Obrigatória"@,
        n.body@ == hard_pause_body(label@, time_to_return@),
{
    let mut body = String::from_str("Pausa para: ");
    body.append(label);
    body.append(", retorno em: ");
    body.append(time_to_return);
    Notification { title: String::from_str("Pausa Obrigatória"), body }
}

/// The notice of a light pause.
pub fn notify_soft_pause(label: &str, time_to_return: &str) -> (n: Notification)
    ensures
        n.title@ == "Pausa Leve"@,
        n.body@ == soft_pause_body(label@, time_to_return@),
{
    let mut body = String::from_str("Pausa leve: ");
    body.append(label);
    body.append(", retorno em: ");
    body.append(time_to_return);
    Notification { title: String::from_str("Pausa Leve"), body }
}

/// The notice that the day's work is done.
pub fn notify_finished() -> (n: Notification)
    ensures
        n.title@ == "Dia Concluído"@,
        n.body@ == "Parabéns! Você concluiu seu dia de trabalho."@,
{
    Notification {
        title: String::from_str("Dia Concluído"),
        body: String::from_str("Parabéns! Você concluiu seu dia de trabalho."),
    }
}

/// The notice that a pause is over.
pub fn notify_back_to_work() -> (n: Notification)
    ensures
        n.title@ == "Fim da Pausa"@,
        n.body@ == "Hora de voltar ao trabalho!"@,
{
    Notification {
        title: String::from_str("Fim da Pausa"),
        body: String::from_str("Hora de voltar ao trabalho!"),
    }
}

} // verus!
