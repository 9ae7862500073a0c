//! The Microsoft Azure Translator API.

use vstd::prelude::*;
use super::{
    mensagem, status_de_sucesso, vista_do_passo, vista_dos_textos, CorpoPedido, CorpoVisto,
    EventoHttp, PassoVisto, PedidoTraducao, PedidoVisto, ProximoPasso, TraducaoRecebida,
};

verus! {

/// The translate endpoint, before the target language.
pub open spec fn prefixo_da_url() -> Seq<char> {
    "https://api.cognitive.microsofttranslator.com/translate?api-version=3.0&to="@
}

/// The translate URL for the Azure language code `idioma_destino`.
pub fn montar_url(idioma_destino: &str) -> (r: String)
    ensures
        r@ == prefixo_da_url() + idioma_destino@,
        r@ == "https://api.cognitive.microsofttranslator.com/translate?api-version=3.0&to="@
            + idioma_destino@,
{
    mensagem(
        "https://api.cognitive.microsofttranslator.com/translate?api-version=3.0&to=",
        idioma_destino,
    )
}

/// The request that translates `texto` into the Azure language code
/// `idioma_destino`: unlike DeepL, Azure needs the key and the region.
pub open spec fn pedido_azure(
    texto: Seq<char>,
    idioma_destino: Seq<char>,
    api_key: Seq<char>,
    regiao: Seq<char>,
) -> PedidoVisto {
    PedidoVisto {
        url: prefixo_da_url() + idioma_destino,
        cabecalhos: seq![
            ("Ocp-Apim-Subscription-Key"@, api_key),
            ("Ocp-Apim-Subscription-Region"@, regiao),
            ("Content-Type"@, "application/json"@),
        ],
        corpo: CorpoVisto::Azure { textos: seq![texto] },
    }
}

/// Builds the request that translates `texto` into `idioma_destino`.
pub fn montar_pedido(texto: &str, idioma_destino: &str, api_key: &str, regiao: &str) -> (r:
    PedidoTraducao)
    ensures
        r@ == pedido_azure(texto@, idioma_destino@, api_key@, regiao@),
{
    let mut cabecalhos: Vec<(String, String)> = Vec::new();
    cabecalhos.push((String::from_str("Ocp-Apim-Subscription-Key"), String::from_str(api_key)));
    cabecalhos.push((String::from_str("Ocp-Apim-Subscription-Region"), String::from_str(regiao)));
    cabecalhos.push((String::from_str("Content-Type"), String::from_str("application/json")));
    let mut textos: Vec<String> = Vec::new();
    textos.push(String::from_str(texto));
    let r = PedidoTraducao {
        url: montar_url(idioma_destino),
        cabecalhos,
        corpo: CorpoPedido::Azure { textos },
    };
    assert(r@.cabecalhos =~= pedido_azure(texto@, idioma_destino@, api_key@, regiao@).cabecalhos);
    assert(vista_dos_textos(textos@) =~= seq![texto@]);
    r
}

/// An Azure request goes to the translate URL of the target language, with
/// the subscription key and region and a JSON content type, and sends the
/// one text.
pub proof fn lei_pedido_azure(
    texto: Seq<char>,
    idioma_destino: Seq<char>,
    api_key: Seq<char>,
    regiao: Seq<char>,
)
    ensures
        pedido_azure(texto, idioma_destino, api_key, regiao).url
            == "https://api.cognitive.microsofttranslator.com/translate?api-version=3.0&to="@
            + idioma_destino,
        pedido_azure(texto, idioma_destino, api_key, regiao).cabecalhos == seq![
            ("Ocp-Apim-Subscription-Key"@, api_key),
            ("Ocp-Apim-Subscription-Region"@, regiao),
            ("Content-Type"@, "application/json"@),
        ],
        pedido_azure(texto, idioma_destino, api_key, regiao).corpo == (CorpoVisto::Azure {
            textos: seq![texto],
        }),
{
}

/// One item of an Azure reply: `{"translations": [{"text": ".."}, ..]}`;
/// the reply is a list of them, one per text sent.
pub struct ItemRespostaAzure {
    pub translations: Vec<TraducaoRecebida>,
}

/// The message of a reply that is not an Azure reply.
pub open spec fn resposta_inesperada(erro: Seq<char>) -> Seq<char> {
    "Resposta inesperada do Azure Translator: "@ + erro
}

/// The message of a reply without any translation.
pub open spec fn sem_traducao() -> Seq<char> {
    "Nenhuma tradução retornada pelo Azure Translator"@
}

/// The translation in a decoded reply: the first translation of its first
/// item, or the message that says what went wrong.
pub open spec fn traducao_extraida(analise: Result<Vec<ItemRespostaAzure>, String>) -> Result<
    Seq<char>,
    Seq<char>,
> {
    match analise {
        Err(e) => Err(resposta_inesperada(e@)),
        Ok(itens) => if itens@.len() > 0 && itens@[0].translations@.len() > 0 {
            Ok(itens@[0].translations@[0].text@)
        } else {
            Err(sem_traducao())
        },
    }
}

/// The first translation of the reply body, decoded as JSON into a list
/// of `ItemRespostaAzure` (or the decoder's error message). Azure answers
/// with a list, as it takes one, so the first item is read first.
pub fn extrair_traducao(analise: Result<Vec<ItemRespostaAzure>, String>) -> (r: Result<String, String>)
    ensures
        super::vista_do_resultado(r) == traducao_extraida(analise),
{
    match analise {
        Err(e) => Err(mensagem("Resposta inesperada do Azure Translator: ", e.as_str())),
        Ok(itens) => {
            if itens.len() > 0 && itens[0].translations.len() > 0 {
                Ok(itens[0].translations[0].text.clone())
            } else {
                Err(String::from_str("Nenhuma tradução retornada pelo Azure Translator"))
            }
        },
    }
}

/// The next step of the exchange with Azure after `evento`.
pub open spec fn passo_azure(evento: EventoHttp<Vec<ItemRespostaAzure>>) -> PassoVisto {
    match evento {
        EventoHttp::FalhaConexao(e) => PassoVisto::Concluir(
            Err("Falha ao conectar com o Azure Translator: "@ + e@),
        ),
        EventoHttp::Status { codigo, descricao } => if status_de_sucesso(codigo) {
            PassoVisto::LerCorpo
        } else {
            PassoVisto::Concluir(Err("Erro da API do Azure Translator: "@ + descricao@))
        },
        EventoHttp::FalhaLeitura(e) => PassoVisto::Concluir(
            Err("Falha ao ler resposta do Azure Translator: "@ + e@),
        ),
        EventoHttp::CorpoAnalisado(analise) => PassoVisto::Concluir(traducao_extraida(analise)),
    }
}

/// Decides the next step of a translation by Azure: a failed connection,
/// an unsuccessful status or an unreadable body ends it with a message;
/// a successful status leads to reading the body, whose first translation
/// ends it.
pub fn proximo_passo(evento: EventoHttp<Vec<ItemRespostaAzure>>) -> (r: ProximoPasso)
    ensures
        vista_do_passo(r) == passo_azure(evento),
        (evento matches EventoHttp::Status { codigo, .. } ==> (r is LerCorpo <==> 200 <= codigo
            && codigo <= 299)),
        !(evento is Status) ==> r is Concluir,
{
    match evento {
        EventoHttp::FalhaConexao(e) => ProximoPasso::Concluir(
            Err(mensagem("Falha ao conectar com o Azure Translator: ", e.as_str())),
        ),
        EventoHttp::Status { codigo, descricao } => {
            if 200 <= codigo && codigo <= 299 {
                ProximoPasso::LerCorpo
            } else {
                ProximoPasso::Concluir(
                    Err(mensagem("Erro da API do Azure Translator: ", descricao.as_str())),
                )
            }
        },
        EventoHttp::FalhaLeitura(e) => ProximoPasso::Concluir(
            Err(mensagem("Falha ao ler resposta do Azure Translator: ", e.as_str())),
        ),
        EventoHttp::CorpoAnalisado(analise) => ProximoPasso::Concluir(extrair_traducao(analise)),
    }
}

/// The body is read exactly after a status of the success class (200 to
/// 299); any other status ends the exchange with the API's error.
pub proof fn lei_status_azure(codigo: u16, descricao: String)
    ensures
        200 <= codigo <= 299 ==> passo_azure((EventoHttp::Status { codigo, descricao }))
            is LerCorpo,
        !(200 <= codigo <= 299) ==> passo_azure((EventoHttp::Status { codigo, descricao }))
            == PassoVisto::Concluir(Err("Erro da API do Azure Translator: "@ + descricao@)),
{
}

/// A failed connection or an unreadable body ends the exchange with an
/// error that carries the failure's message.
pub proof fn lei_falhas_azure(erro: String)
    ensures
        passo_azure(EventoHttp::FalhaConexao(erro)) == PassoVisto::Concluir(
            Err("Falha ao conectar com o Azure Translator: "@ + erro@),
        ),
        passo_azure(EventoHttp::FalhaLeitura(erro)) == PassoVisto::Concluir(
            Err("Falha ao ler resposta do Azure Translator: "@ + erro@),
        ),
{
}

/// A decoded Azure reply ends the exchange with the first translation of
/// its first item; a reply without one, or one that is not an Azure reply,
/// ends it with an error.
pub proof fn lei_corpo_azure(analise: Result<Vec<ItemRespostaAzure>, String>)
    ensures
        analise matches Ok(itens) ==> (itens@.len() > 0 && itens@[0].translations@.len() > 0
            ==> passo_azure(EventoHttp::CorpoAnalisado(analise)) == PassoVisto::Concluir(
            Ok(itens@[0].translations@[0].text@),
        )),
        analise matches Ok(itens) ==> (itens@.len() == 0 || itens@[0].translations@.len() == 0
            ==> passo_azure(EventoHttp::CorpoAnalisado(analise)) == PassoVisto::Concluir(
            Err("Nenhuma tradução retornada pelo Azure Translator"@),
        )),
        analise matches Err(e) ==> passo_azure(EventoHttp::CorpoAnalisado(analise))
            == PassoVisto::Concluir(Err("Resposta inesperada do Azure Translator: "@ + e@)),
{
}

} // verus!
